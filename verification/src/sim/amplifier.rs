//! Virtual amplifier for testing
//!
//! A simulated amplifier that follows the frequency, mode and PTT state it
//! is sent, and records every command.

use vstd::prelude::*;
use vstd::slice::slice_subrange;

use crate::command::OperatingMode;
use crate::mux::amplifier::{
    amp_civ_end, amp_icom_frequency, amp_icom_mode_of, amp_kenwood_frequency, amp_kenwood_mode_of,
    byte_strings, lemma_pow10_mono, VirtualAmplifier as MuxVirtualAmplifier,
};
use crate::protocol::Protocol;
use crate::stream::{find_byte, lemma_first_index_of_found};
use crate::text::{parse_u64, push_all};

verus! {

/// The PTT state a Kenwood command sets: `TX...;` keys, `RX...;` releases.
pub open spec fn amp_kenwood_ptt(d: Seq<u8>) -> Option<bool> {
    if d.len() >= 3 && d[0] == 84u8 && d[1] == 88u8 && d.last() == 59u8 {
        Some(true)
    } else if d.len() >= 3 && d[0] == 82u8 && d[1] == 88u8 && d.last() == 59u8 {
        Some(false)
    } else {
        None
    }
}

/// The PTT state a CI-V command 0x1C 0x00 sets: on unless its byte is 0.
pub open spec fn amp_icom_ptt(d: Seq<u8>) -> Option<bool> {
    match amp_civ_end(d) {
        Some(_) => if d[4] == 0x1Cu8 && d[5] == 0u8 && d.len() > 6 {
            Some(d[6] != 0u8)
        } else {
            None
        },
        None => None,
    }
}

/// Virtual amplifier for testing
///
/// Tracks frequency/mode/PTT state based on commands received.
pub struct VirtualAmplifier {
    /// Identifier for logging
    id: String,
    protocol: Protocol,
    civ_address: Option<u8>,
    frequency_hz: u64,
    mode: OperatingMode,
    ptt: bool,
    /// Commands received (for test verification)
    received_commands: Vec<Vec<u8>>,
}

/// The mathematical value of a simulated `VirtualAmplifier`.
pub struct SimAmpModel {
    pub id: Seq<char>,
    pub protocol: Protocol,
    pub civ_address: Option<u8>,
    pub frequency_hz: u64,
    pub mode: OperatingMode,
    pub ptt: bool,
    pub received: Seq<Seq<u8>>,
}

impl View for VirtualAmplifier {
    type V = SimAmpModel;

    closed spec fn view(&self) -> SimAmpModel {
        SimAmpModel {
            id: self.id@,
            protocol: self.protocol,
            civ_address: self.civ_address,
            frequency_hz: self.frequency_hz,
            mode: self.mode,
            ptt: self.ptt,
            received: byte_strings(self.received_commands@),
        }
    }
}

/// What a command sets: frequency, mode and PTT, each if it sets it. Only
/// the Kenwood family and CI-V are understood.
pub open spec fn sim_amp_updates(p: Protocol, d: Seq<u8>) -> (Option<u64>, Option<OperatingMode>, Option<bool>) {
    match p {
        Protocol::Kenwood | Protocol::Elecraft => (amp_kenwood_frequency(d), amp_kenwood_mode_of(d), amp_kenwood_ptt(d)),
        Protocol::IcomCIV => (amp_icom_frequency(d), amp_icom_mode_of(d), amp_icom_ptt(d)),
        _ => (None, None, None),
    }
}

/// The amplifier after it is sent `d`.
pub open spec fn sim_amp_after(a: SimAmpModel, d: Seq<u8>) -> SimAmpModel {
    let (f, m, p) = sim_amp_updates(a.protocol, d);
    SimAmpModel {
        frequency_hz: match f {
            Some(x) => x,
            None => a.frequency_hz,
        },
        mode: match m {
            Some(x) => x,
            None => a.mode,
        },
        ptt: match p {
            Some(x) => x,
            None => a.ptt,
        },
        received: a.received.push(d),
        ..a
    }
}

/// The amplifier's frequency, mode or PTT differ.
pub open spec fn sim_amp_state_differs(a: SimAmpModel, b: SimAmpModel) -> bool {
    a.frequency_hz != b.frequency_hz || a.mode != b.mode || a.ptt != b.ptt
}

impl VirtualAmplifier {
    /// Create a new virtual amplifier, tuned to 14.250 MHz USB, PTT off
    pub fn new(id: String, protocol: Protocol, civ_address: Option<u8>) -> (r: Self)
        ensures
            r@ == (SimAmpModel {
                id: id@,
                protocol,
                civ_address,
                frequency_hz: 14_250_000,
                mode: OperatingMode::Usb,
                ptt: false,
                received: Seq::empty(),
            }),
    {
        let r = VirtualAmplifier {
            id,
            protocol,
            civ_address,
            frequency_hz: 14_250_000,
            mode: OperatingMode::Usb,
            ptt: false,
            received_commands: Vec::new(),
        };
        proof {
            assert(r@.received =~= Seq::<Seq<u8>>::empty());
        }
        r
    }

    /// Get the identifier
    pub fn id(&self) -> (r: &str)
        ensures
            r@ == self@.id,
    {
        self.id.as_str()
    }

    /// Get the protocol
    pub fn protocol(&self) -> (r: Protocol)
        ensures
            r == self@.protocol,
    {
        self.protocol
    }

    /// Get the CI-V address
    pub fn civ_address(&self) -> (r: Option<u8>)
        ensures
            r == self@.civ_address,
    {
        self.civ_address
    }

    /// Get current frequency
    pub fn frequency_hz(&self) -> (r: u64)
        ensures
            r == self@.frequency_hz,
    {
        self.frequency_hz
    }

    /// Get current mode
    pub fn mode(&self) -> (r: OperatingMode)
        ensures
            r == self@.mode,
    {
        self.mode
    }

    /// Get current PTT state
    pub fn ptt(&self) -> (r: bool)
        ensures
            r == self@.ptt,
    {
        self.ptt
    }

    /// Process a command sent to the amplifier: it is recorded, the state
    /// it sets is taken over, and the result says whether frequency, mode
    /// or PTT changed.
    pub fn process_command(&mut self, data: &[u8]) -> (r: bool)
        ensures
            final(self)@ == sim_amp_after(old(self)@, data@),
            r == sim_amp_state_differs(old(self)@, final(self)@),
    {
        let mut copy: Vec<u8> = Vec::new();
        push_all(&mut copy, data);
        self.received_commands.push(copy);
        proof {
            assert(copy@ =~= data@);
            assert(byte_strings(self.received_commands@) =~= old(self)@.received.push(data@));
        }
        let (f, m, p) = match self.protocol {
            Protocol::Kenwood | Protocol::Elecraft => kenwood_updates(data),
            Protocol::IcomCIV => icom_updates(data),
            _ => (None, None, None),
        };
        let mut changed = false;
        if let Some(x) = f {
            if self.frequency_hz != x {
                self.frequency_hz = x;
                changed = true;
            }
        }
        if let Some(x) = m {
            if self.mode != x {
                self.mode = x;
                changed = true;
            }
        }
        if let Some(x) = p {
            if self.ptt != x {
                self.ptt = x;
                changed = true;
            }
        }
        changed
    }

    /// Get all received commands (for test verification)
    pub fn received_commands(&self) -> (r: &[Vec<u8>])
        ensures
            byte_strings(r@) == self@.received,
    {
        self.received_commands.as_slice()
    }

    /// Clear received commands
    pub fn clear_received(&mut self)
        ensures
            final(self)@ == (SimAmpModel { received: Seq::empty(), ..old(self)@ }),
    {
        self.received_commands = Vec::new();
        proof {
            assert(byte_strings(self.received_commands@) =~= Seq::<Seq<u8>>::empty());
        }
    }
}

/// What a Kenwood-style command sets (`FA<digits>;`, `MD<digit>;`,
/// `TX...;`, `RX...;`).
fn kenwood_updates(data: &[u8]) -> (r: (Option<u64>, Option<OperatingMode>, Option<bool>))
    ensures
        r == (amp_kenwood_frequency(data@), amp_kenwood_mode_of(data@), amp_kenwood_ptt(data@)),
{
    let n = data.len();
    let freq = if n >= 3 && data[0] == 70u8 && data[1] == 65u8 && data[n - 1] == 59u8 {
        parse_u64(slice_subrange(data, 2, n - 1))
    } else {
        None
    };
    let mode = if n == 4 && data[0] == 77u8 && data[1] == 68u8 && data[3] == 59u8 {
        MuxVirtualAmplifier::kenwood_mode_from_byte(data[2])
    } else {
        None
    };
    let ptt = if n >= 3 && data[0] == 84u8 && data[1] == 88u8 && data[n - 1] == 59u8 {
        Some(true)
    } else if n >= 3 && data[0] == 82u8 && data[1] == 88u8 && data[n - 1] == 59u8 {
        Some(false)
    } else {
        None
    };
    (freq, mode, ptt)
}

/// What a CI-V command sets: frequency (0x00, or 0x05 0x00), mode (0x01 or
/// 0x06) and PTT (0x1C 0x00).
fn icom_updates(data: &[u8]) -> (r: (Option<u64>, Option<OperatingMode>, Option<bool>))
    ensures
        r == (amp_icom_frequency(data@), amp_icom_mode_of(data@), amp_icom_ptt(data@)),
{
    if data.len() < 6 || data[0] != 0xFE || data[1] != 0xFE {
        return (None, None, None);
    }
    proof {
        lemma_first_index_of_found(data@, 0xFDu8);
    }
    let fd_pos = match find_byte(data, 0xFD) {
        Some(k) => k,
        None => {
            return (None, None, None);
        },
    };
    if fd_pos < 5 {
        return (None, None, None);
    }
    let cmd = data[4];
    let freq = if cmd == 0x00 || (cmd == 0x05 && data[5] == 0x00) {
        let freq_start: usize = if cmd == 0x05 {
            6
        } else {
            5
        };
        MuxVirtualAmplifier::parse_icom_bcd_frequency(slice_subrange(data, freq_start, fd_pos))
    } else {
        None
    };
    let mode = if cmd == 0x01 || cmd == 0x06 {
        MuxVirtualAmplifier::icom_mode_from_byte(data[5])
    } else {
        None
    };
    let ptt = if cmd == 0x1C && data[5] == 0x00 && data.len() > 6 {
        Some(data[6] != 0x00)
    } else {
        None
    };
    (freq, mode, ptt)
}

} // verus!
