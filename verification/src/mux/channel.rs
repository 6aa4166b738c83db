//! Radio channel metadata for multiplexer connections
//!
//! Both real (COM port) and virtual radios are described by a
//! `RadioChannelMeta` when they register with the multiplexer.

use vstd::prelude::*;

use crate::models::{RadioModel, RadioModelSpec};
use crate::protocol::Protocol;

verus! {

/// Type of radio connection
#[derive(Debug, Clone, Copy, PartialEq, Eq, Structural)]
pub enum RadioType {
    /// Real hardware radio connected via COM/serial port
    Real,
    /// Virtual/simulated radio
    Virtual,
}

/// Metadata for a connected radio channel
#[derive(Debug, Clone)]
pub struct RadioChannelMeta {
    /// Protocol used by this radio
    pub protocol: Protocol,
    /// Whether this is a real or virtual radio
    pub radio_type: RadioType,
    /// Identified radio model (if known)
    pub model_info: Option<RadioModel>,
    /// Serial port name (for real radios)
    pub port_name: Option<String>,
    /// Simulation ID (for virtual radios)
    pub sim_id: Option<String>,
    /// Human-readable display name
    pub display_name: String,
    /// CI-V address (for Icom radios)
    pub civ_address: Option<u8>,
}

/// The mathematical value of a `RadioChannelMeta`.
pub struct RadioChannelMetaModel {
    pub protocol: Protocol,
    pub radio_type: RadioType,
    pub model_info: Option<RadioModelSpec>,
    pub port_name: Option<Seq<char>>,
    pub sim_id: Option<Seq<char>>,
    pub display_name: Seq<char>,
    pub civ_address: Option<u8>,
}

pub open spec fn opt_text(s: Option<String>) -> Option<Seq<char>> {
    match s {
        Some(t) => Some(t@),
        None => None,
    }
}

pub open spec fn opt_model(m: Option<RadioModel>) -> Option<RadioModelSpec> {
    match m {
        Some(x) => Some(x@),
        None => None,
    }
}

impl View for RadioChannelMeta {
    type V = RadioChannelMetaModel;

    open spec fn view(&self) -> RadioChannelMetaModel {
        RadioChannelMetaModel {
            protocol: self.protocol,
            radio_type: self.radio_type,
            model_info: opt_model(self.model_info),
            port_name: opt_text(self.port_name),
            sim_id: opt_text(self.sim_id),
            display_name: self.display_name@,
            civ_address: self.civ_address,
        }
    }
}

impl RadioChannelMeta {
    /// Create metadata for a real radio
    pub fn new_real(display_name: String, port_name: String, protocol: Protocol, civ_address: Option<u8>) -> (r:
        Self)
        ensures
            r@ == (RadioChannelMetaModel {
                protocol,
                radio_type: RadioType::Real,
                model_info: None,
                port_name: Some(port_name@),
                sim_id: None,
                display_name: display_name@,
                civ_address,
            }),
    {
        RadioChannelMeta {
            protocol,
            radio_type: RadioType::Real,
            model_info: None,
            port_name: Some(port_name),
            sim_id: None,
            display_name,
            civ_address,
        }
    }

    /// Create metadata for a virtual radio
    pub fn new_virtual(display_name: String, sim_id: String, protocol: Protocol) -> (r: Self)
        ensures
            r@ == (RadioChannelMetaModel {
                protocol,
                radio_type: RadioType::Virtual,
                model_info: None,
                port_name: None,
                sim_id: Some(sim_id@),
                display_name: display_name@,
                civ_address: None,
            }),
    {
        RadioChannelMeta {
            protocol,
            radio_type: RadioType::Virtual,
            model_info: None,
            port_name: None,
            sim_id: Some(sim_id),
            display_name,
            civ_address: None,
        }
    }

    /// A copy with the same view.
    pub fn duplicate(&self) -> (r: Self)
        ensures
            r@ == self@,
    {
        RadioChannelMeta {
            protocol: self.protocol,
            radio_type: self.radio_type,
            model_info: match &self.model_info {
                Some(m) => Some(m.duplicate()),
                None => None,
            },
            port_name: match &self.port_name {
                Some(p) => Some(p.clone()),
                None => None,
            },
            sim_id: match &self.sim_id {
                Some(p) => Some(p.clone()),
                None => None,
            },
            display_name: self.display_name.clone(),
            civ_address: self.civ_address,
        }
    }

    /// Check if this is a virtual/simulated radio
    pub fn is_simulated(&self) -> (r: bool)
        ensures
            r == (self.radio_type == RadioType::Virtual),
    {
        self.radio_type == RadioType::Virtual
    }

    /// Update the model info after identification
    pub fn set_model(&mut self, model: RadioModel)
        ensures
            final(self)@ == (RadioChannelMetaModel { model_info: Some(model@), ..old(self)@ }),
    {
        self.model_info = Some(model);
    }

    /// Update the display name
    pub fn set_display_name(&mut self, name: String)
        ensures
            final(self)@ == (RadioChannelMetaModel { display_name: name@, ..old(self)@ }),
    {
        self.display_name = name;
    }
}

} // verus!
