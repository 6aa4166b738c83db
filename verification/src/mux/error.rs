//! Error types for the multiplexer

use vstd::prelude::*;

use crate::error::ProtocolError;
use crate::mux::state::RadioHandle;

verus! {

/// `std::io::Error`, carried through unchanged.
#[verifier::external_type_specification]
#[verifier::external_body]
pub struct ExIoError(std::io::Error);

/// Errors that can occur in the multiplexer
#[derive(Debug)]
pub enum MuxError {
    /// Radio not found
    RadioNotFound(String),
    /// Radio already exists
    RadioExists(String),
    /// No active radio
    NoActiveRadio,
    /// Amplifier not configured
    NoAmplifier,
    /// Translation error
    TranslationError(String),
    /// I/O error
    IoError(std::io::Error),
    /// Protocol error
    ProtocolError(ProtocolError),
    /// Switching blocked (lockout active)
    SwitchingLocked {
        /// Radio that requested to become active
        requested: RadioHandle,
        /// Currently active radio
        current: RadioHandle,
        /// Time remaining in lockout (milliseconds)
        remaining_ms: u64,
    },
}

impl From<ProtocolError> for MuxError {
    fn from(e: ProtocolError) -> (r: MuxError) {
        MuxError::ProtocolError(e)
    }
}

impl vstd::std_specs::convert::FromSpecImpl<ProtocolError> for MuxError {
    open spec fn obeys_from_spec() -> bool {
        true
    }

    open spec fn from_spec(e: ProtocolError) -> MuxError {
        MuxError::ProtocolError(e)
    }
}

} // verus!
