//! Radio detection: classifying serial ports by their USB identity and
//! name, and recognising radios from their answers to probes.

pub mod usb_ids;
pub mod scanner;
pub mod probe;
