//! Error types for CAT protocol parsing, encoding and multiplexing

use vstd::prelude::*;

verus! {

/// Errors that can occur while parsing protocol data
#[derive(Debug, Clone, PartialEq, Eq)]
pub enum ParseError {
    /// Buffer is incomplete - need more data
    Incomplete { needed: usize },
    /// Invalid frame structure
    InvalidFrame(String),
    /// Unknown or unsupported command
    UnknownCommand(String),
    /// Invalid BCD encoding
    InvalidBcd(u8),
    /// Invalid frequency value
    InvalidFrequency(String),
    /// Invalid mode value
    InvalidMode(String),
    /// Invalid address (for CI-V)
    InvalidAddress(u8),
    /// Checksum mismatch
    ChecksumMismatch { expected: u8, actual: u8 },
}

/// Higher-level protocol errors
#[derive(Debug, Clone, PartialEq, Eq)]
pub enum ProtocolError {
    /// Parse error
    Parse(ParseError),
    /// Command cannot be translated to target protocol
    UntranslatableCommand(String),
    /// Feature not supported by target radio
    UnsupportedFeature(String),
    /// Communication timeout
    Timeout(u64),
    /// Invalid response from radio
    InvalidResponse(String),
}

impl From<ParseError> for ProtocolError {
    fn from(e: ParseError) -> (r: ProtocolError) {
        ProtocolError::Parse(e)
    }
}

impl vstd::std_specs::convert::FromSpecImpl<ParseError> for ProtocolError {
    open spec fn obeys_from_spec() -> bool {
        true
    }

    open spec fn from_spec(e: ParseError) -> ProtocolError {
        ProtocolError::Parse(e)
    }
}

} // verus!
