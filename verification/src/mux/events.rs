//! Unified event stream for the multiplexer
//!
//! All multiplexer activity (radio state changes, traffic, amplifier
//! activity) is reported as `MuxEvent`s through a single channel.

use vstd::prelude::*;

use crate::command::OperatingMode;
use crate::mux::amplifier::{AmplifierChannelMeta, AmplifierChannelMetaModel};
use crate::mux::channel::{RadioChannelMeta, RadioChannelMetaModel};
use crate::mux::state::{RadioHandle, SwitchingMode};
use crate::protocol::Protocol;

verus! {

/// Unified event enum for all multiplexer activity
#[derive(Debug, Clone)]
pub enum MuxEvent {
    /// A radio has connected to the multiplexer
    RadioConnected {
        /// Handle for this radio
        handle: RadioHandle,
        /// Metadata about the radio
        meta: RadioChannelMeta,
    },
    /// A radio has disconnected from the multiplexer
    RadioDisconnected {
        /// Handle of the disconnected radio
        handle: RadioHandle,
    },
    /// A radio's state has changed (frequency, mode, or PTT)
    RadioStateChanged {
        /// Handle of the radio
        handle: RadioHandle,
        /// New frequency in Hz (if changed)
        freq: Option<u64>,
        /// New operating mode (if changed)
        mode: Option<OperatingMode>,
        /// New PTT state (if changed)
        ptt: Option<bool>,
    },
    /// The active radio has changed
    ActiveRadioChanged {
        /// Previous active radio (None if no radio was active)
        from: Option<RadioHandle>,
        /// New active radio
        to: RadioHandle,
    },
    /// Data received from a radio (radio -> mux)
    RadioDataIn {
        /// Handle of the source radio
        handle: RadioHandle,
        /// Raw data bytes
        data: Vec<u8>,
        /// Protocol of the radio
        protocol: Protocol,
    },
    /// Data sent to a radio (mux -> radio)
    RadioDataOut {
        /// Handle of the target radio
        handle: RadioHandle,
        /// Raw data bytes
        data: Vec<u8>,
        /// Protocol of the radio
        protocol: Protocol,
    },
    /// Data sent to the amplifier (mux -> amp)
    AmpDataOut {
        /// Raw data bytes
        data: Vec<u8>,
        /// Protocol used for the amplifier
        protocol: Protocol,
    },
    /// Data received from the amplifier (amp -> mux)
    AmpDataIn {
        /// Raw data bytes
        data: Vec<u8>,
        /// Protocol used for the amplifier
        protocol: Protocol,
    },
    /// An amplifier has connected to the multiplexer
    AmpConnected {
        /// Metadata about the amplifier
        meta: AmplifierChannelMeta,
    },
    /// The amplifier has disconnected from the multiplexer
    AmpDisconnected,
    /// The switching mode has changed
    SwitchingModeChanged {
        /// New switching mode
        mode: SwitchingMode,
    },
    /// A radio switch was blocked due to lockout
    SwitchingBlocked {
        /// Radio that requested to become active
        requested: RadioHandle,
        /// Currently active radio
        current: RadioHandle,
        /// Time remaining in lockout (milliseconds)
        remaining_ms: u64,
    },
    /// An error occurred in the multiplexer
    Error {
        /// Source of the error
        source: String,
        /// Error message
        message: String,
    },
}

/// The mathematical value of a `MuxEvent`.
pub enum MuxEventModel {
    RadioConnected { handle: RadioHandle, meta: RadioChannelMetaModel },
    RadioDisconnected { handle: RadioHandle },
    RadioStateChanged {
        handle: RadioHandle,
        freq: Option<u64>,
        mode: Option<OperatingMode>,
        ptt: Option<bool>,
    },
    ActiveRadioChanged { from: Option<RadioHandle>, to: RadioHandle },
    RadioDataIn { handle: RadioHandle, data: Seq<u8>, protocol: Protocol },
    RadioDataOut { handle: RadioHandle, data: Seq<u8>, protocol: Protocol },
    AmpDataOut { data: Seq<u8>, protocol: Protocol },
    AmpDataIn { data: Seq<u8>, protocol: Protocol },
    AmpConnected { meta: AmplifierChannelMetaModel },
    AmpDisconnected,
    SwitchingModeChanged { mode: SwitchingMode },
    SwitchingBlocked { requested: RadioHandle, current: RadioHandle, remaining_ms: u64 },
    Error { source: Seq<char>, message: Seq<char> },
}

impl View for MuxEvent {
    type V = MuxEventModel;

    open spec fn view(&self) -> MuxEventModel {
        match self {
            MuxEvent::RadioConnected { handle, meta } => MuxEventModel::RadioConnected {
                handle: *handle,
                meta: meta@,
            },
            MuxEvent::RadioDisconnected { handle } => MuxEventModel::RadioDisconnected { handle: *handle },
            MuxEvent::RadioStateChanged { handle, freq, mode, ptt } => MuxEventModel::RadioStateChanged {
                handle: *handle,
                freq: *freq,
                mode: *mode,
                ptt: *ptt,
            },
            MuxEvent::ActiveRadioChanged { from, to } => MuxEventModel::ActiveRadioChanged {
                from: *from,
                to: *to,
            },
            MuxEvent::RadioDataIn { handle, data, protocol } => MuxEventModel::RadioDataIn {
                handle: *handle,
                data: data@,
                protocol: *protocol,
            },
            MuxEvent::RadioDataOut { handle, data, protocol } => MuxEventModel::RadioDataOut {
                handle: *handle,
                data: data@,
                protocol: *protocol,
            },
            MuxEvent::AmpDataOut { data, protocol } => MuxEventModel::AmpDataOut {
                data: data@,
                protocol: *protocol,
            },
            MuxEvent::AmpDataIn { data, protocol } => MuxEventModel::AmpDataIn { data: data@, protocol: *protocol },
            MuxEvent::AmpConnected { meta } => MuxEventModel::AmpConnected { meta: meta@ },
            MuxEvent::AmpDisconnected => MuxEventModel::AmpDisconnected,
            MuxEvent::SwitchingModeChanged { mode } => MuxEventModel::SwitchingModeChanged { mode: *mode },
            MuxEvent::SwitchingBlocked { requested, current, remaining_ms } => MuxEventModel::SwitchingBlocked {
                requested: *requested,
                current: *current,
                remaining_ms: *remaining_ms,
            },
            MuxEvent::Error { source, message } => MuxEventModel::Error {
                source: source@,
                message: message@,
            },
        }
    }
}

impl MuxEvent {
    /// Check if this is a traffic event (for traffic monitor filtering)
    pub fn is_traffic(&self) -> (r: bool)
        ensures
            r == (self is RadioDataIn || self is RadioDataOut || self is AmpDataOut || self is AmpDataIn),
    {
        match self {
            MuxEvent::RadioDataIn { .. } | MuxEvent::RadioDataOut { .. } | MuxEvent::AmpDataOut { .. }
            | MuxEvent::AmpDataIn { .. } => true,
            _ => false,
        }
    }

    /// Check if this is a radio lifecycle event
    pub fn is_radio_lifecycle(&self) -> (r: bool)
        ensures
            r == (self is RadioConnected || self is RadioDisconnected || self is ActiveRadioChanged),
    {
        match self {
            MuxEvent::RadioConnected { .. } | MuxEvent::RadioDisconnected { .. }
            | MuxEvent::ActiveRadioChanged { .. } => true,
            _ => false,
        }
    }

    /// Check if this is an amplifier lifecycle event
    pub fn is_amp_lifecycle(&self) -> (r: bool)
        ensures
            r == (self is AmpConnected || self is AmpDisconnected),
    {
        match self {
            MuxEvent::AmpConnected { .. } | MuxEvent::AmpDisconnected => true,
            _ => false,
        }
    }

    /// Get the radio handle if this event is associated with a specific radio
    pub fn radio_handle(&self) -> (r: Option<RadioHandle>)
        ensures
            r == (match self {
                MuxEvent::RadioConnected { handle, .. } => Some(*handle),
                MuxEvent::RadioDisconnected { handle } => Some(*handle),
                MuxEvent::RadioStateChanged { handle, .. } => Some(*handle),
                MuxEvent::RadioDataIn { handle, .. } => Some(*handle),
                MuxEvent::RadioDataOut { handle, .. } => Some(*handle),
                MuxEvent::ActiveRadioChanged { to, .. } => Some(*to),
                MuxEvent::SwitchingBlocked { requested, .. } => Some(*requested),
                _ => None,
            }),
    {
        match self {
            MuxEvent::RadioConnected { handle, .. } | MuxEvent::RadioDisconnected { handle }
            | MuxEvent::RadioStateChanged { handle, .. } | MuxEvent::RadioDataIn { handle, .. }
            | MuxEvent::RadioDataOut { handle, .. } => Some(*handle),
            MuxEvent::ActiveRadioChanged { to, .. } => Some(*to),
            MuxEvent::SwitchingBlocked { requested, .. } => Some(*requested),
            _ => None,
        }
    }
}

} // verus!
