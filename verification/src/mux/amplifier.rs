//! Amplifier channel metadata and the virtual amplifier
//!
//! An amplifier is reached through a real serial port or simulated by a
//! `VirtualAmplifier`, which follows the frequency and mode it is sent.

use vstd::prelude::*;
use vstd::slice::slice_subrange;

use crate::command::OperatingMode;
use crate::protocol::{codec_measure, create_radio_codec, AnyRadioCodec, Protocol, RadioCodec};
use crate::stream::{find_byte, first_index_of, lemma_first_index_of_found};
use crate::text::{parse_u64, parse_u64_spec, pow10, push_all};

verus! {

/// Type of amplifier connection
#[derive(Debug, Clone, Copy, PartialEq, Eq, Structural)]
pub enum AmplifierType {
    /// Real hardware amplifier connected via COM/serial port
    Real,
    /// Virtual/simulated amplifier for testing
    Virtual,
}

/// Metadata for an amplifier channel
#[derive(Debug, Clone)]
pub struct AmplifierChannelMeta {
    /// Protocol used to communicate with this amplifier
    pub protocol: Protocol,
    /// Whether this is a real or virtual amplifier
    pub amp_type: AmplifierType,
    /// Serial port name (for real amplifiers)
    pub port_name: Option<String>,
    /// CI-V address (for Icom amplifiers)
    pub civ_address: Option<u8>,
    /// Baud rate for serial communication
    pub baud_rate: u32,
}

/// The mathematical value of an `AmplifierChannelMeta`.
pub struct AmplifierChannelMetaModel {
    pub protocol: Protocol,
    pub amp_type: AmplifierType,
    pub port_name: Option<Seq<char>>,
    pub civ_address: Option<u8>,
    pub baud_rate: u32,
}

impl View for AmplifierChannelMeta {
    type V = AmplifierChannelMetaModel;

    open spec fn view(&self) -> AmplifierChannelMetaModel {
        AmplifierChannelMetaModel {
            protocol: self.protocol,
            amp_type: self.amp_type,
            port_name: crate::mux::channel::opt_text(self.port_name),
            civ_address: self.civ_address,
            baud_rate: self.baud_rate,
        }
    }
}

impl AmplifierChannelMeta {
    /// Create metadata for a real amplifier
    pub fn new_real(port_name: String, protocol: Protocol, baud_rate: u32, civ_address: Option<u8>) -> (r: Self)
        ensures
            r.protocol == protocol,
            r.amp_type == AmplifierType::Real,
            r.port_name matches Some(p) && p@ == port_name@,
            r.civ_address == civ_address,
            r.baud_rate == baud_rate,
    {
        AmplifierChannelMeta {
            protocol,
            amp_type: AmplifierType::Real,
            port_name: Some(port_name),
            civ_address,
            baud_rate,
        }
    }

    /// Create metadata for a virtual amplifier (no port, baud rate 0)
    pub fn new_virtual(protocol: Protocol, civ_address: Option<u8>) -> (r: Self)
        ensures
            r.protocol == protocol,
            r.amp_type == AmplifierType::Virtual,
            r.port_name is None,
            r.civ_address == civ_address,
            r.baud_rate == 0,
    {
        AmplifierChannelMeta {
            protocol,
            amp_type: AmplifierType::Virtual,
            port_name: None,
            civ_address,
            baud_rate: 0,
        }
    }

    /// A copy with the same view.
    pub fn duplicate(&self) -> (r: Self)
        ensures
            r@ == self@,
    {
        AmplifierChannelMeta {
            protocol: self.protocol,
            amp_type: self.amp_type,
            port_name: match &self.port_name {
                Some(p) => Some(p.clone()),
                None => None,
            },
            civ_address: self.civ_address,
            baud_rate: self.baud_rate,
        }
    }

    /// Check if this is a virtual/simulated amplifier
    pub fn is_simulated(&self) -> (r: bool)
        ensures
            r == (self.amp_type == AmplifierType::Virtual),
    {
        self.amp_type == AmplifierType::Virtual
    }
}

/// The mode a Kenwood `MD` digit selects on the virtual amplifier.
pub open spec fn amp_kenwood_mode(b: u8) -> Option<OperatingMode> {
    if b == 49 {
        Some(OperatingMode::Lsb)
    } else if b == 50 {
        Some(OperatingMode::Usb)
    } else if b == 51 {
        Some(OperatingMode::Cw)
    } else if b == 52 {
        Some(OperatingMode::Fm)
    } else if b == 53 {
        Some(OperatingMode::Am)
    } else if b == 54 {
        Some(OperatingMode::Dig)
    } else if b == 55 {
        Some(OperatingMode::CwR)
    } else if b == 57 {
        Some(OperatingMode::DigL)
    } else {
        None
    }
}

/// The mode a CI-V mode byte selects on the virtual amplifier.
pub open spec fn amp_icom_mode(b: u8) -> Option<OperatingMode> {
    if b == 0 {
        Some(OperatingMode::Lsb)
    } else if b == 1 {
        Some(OperatingMode::Usb)
    } else if b == 2 {
        Some(OperatingMode::Am)
    } else if b == 3 {
        Some(OperatingMode::Cw)
    } else if b == 4 {
        Some(OperatingMode::Rtty)
    } else if b == 5 {
        Some(OperatingMode::Fm)
    } else if b == 7 {
        Some(OperatingMode::CwR)
    } else if b == 8 {
        Some(OperatingMode::RttyR)
    } else {
        None
    }
}

/// The frequency a Kenwood `FA<digits>;` command sets.
pub open spec fn amp_kenwood_frequency(d: Seq<u8>) -> Option<u64> {
    if d.len() >= 3 && d[0] == 70u8 && d[1] == 65u8 && d.last() == 59u8 {
        parse_u64_spec(d.subrange(2, d.len() - 1))
    } else {
        None
    }
}

/// The mode a Kenwood `MD<digit>;` command sets.
pub open spec fn amp_kenwood_mode_of(d: Seq<u8>) -> Option<OperatingMode> {
    if d.len() == 4 && d[0] == 77u8 && d[1] == 68u8 && d[3] == 59u8 {
        amp_kenwood_mode(d[2])
    } else {
        None
    }
}

/// The value of the first `n` bytes of `b` read as packed decimal, least
/// significant byte first and low nibble before high nibble (nibbles above
/// 9 are taken at face value).
pub open spec fn amp_bcd_value(b: Seq<u8>, n: nat) -> nat
    decreases n,
{
    if n == 0 {
        0
    } else {
        let k = (n - 1) as nat;
        amp_bcd_value(b, k) + (b[k as int] % 16) as nat * pow10(2 * k) + (b[k as int] / 16) as nat * pow10(
            2 * k + 1,
        )
    }
}

/// A CI-V frame the virtual amplifier reads: a double preamble, at least six
/// bytes, and a terminator at index 5 or later; its terminator's index.
pub open spec fn amp_civ_end(d: Seq<u8>) -> Option<int> {
    if d.len() >= 6 && d[0] == 0xFEu8 && d[1] == 0xFEu8 {
        match first_index_of(d, 0xFDu8) {
            Some(k) => if k >= 5 {
                Some(k)
            } else {
                None
            },
            None => None,
        }
    } else {
        None
    }
}

/// The frequency a CI-V frame sets: command 0x00, or 0x05 with 0x00 after
/// it, followed by at least five bytes of frequency before the terminator.
pub open spec fn amp_icom_frequency(d: Seq<u8>) -> Option<u64> {
    match amp_civ_end(d) {
        Some(k) => {
            let cmd = d[4];
            if cmd == 0 || (cmd == 5 && d[5] == 0) {
                let start: int = if cmd == 5 {
                    6
                } else {
                    5
                };
                if k - start >= 5 {
                    Some(amp_bcd_value(d.subrange(start, k), 5) as u64)
                } else {
                    None
                }
            } else {
                None
            }
        },
        None => None,
    }
}

/// The mode a CI-V frame sets: command 0x01 or 0x06 with a known mode byte.
pub open spec fn amp_icom_mode_of(d: Seq<u8>) -> Option<OperatingMode> {
    match amp_civ_end(d) {
        Some(k) => if d[4] == 1 || d[4] == 6 {
            amp_icom_mode(d[5])
        } else {
            None
        },
        None => None,
    }
}

/// The frequency a command sets on a virtual amplifier of `protocol`.
pub open spec fn amp_frequency_update(protocol: Protocol, d: Seq<u8>) -> Option<u64> {
    match protocol {
        Protocol::Kenwood | Protocol::Elecraft => amp_kenwood_frequency(d),
        Protocol::IcomCIV => amp_icom_frequency(d),
        _ => None,
    }
}

/// The mode a command sets on a virtual amplifier of `protocol`.
pub open spec fn amp_mode_update(protocol: Protocol, d: Seq<u8>) -> Option<OperatingMode> {
    match protocol {
        Protocol::Kenwood | Protocol::Elecraft => amp_kenwood_mode_of(d),
        Protocol::IcomCIV => amp_icom_mode_of(d),
        _ => None,
    }
}

/// Virtual amplifier for testing
///
/// Tracks frequency/mode state and records every command it is sent.
pub struct VirtualAmplifier {
    protocol: Protocol,
    civ_address: Option<u8>,
    frequency_hz: u64,
    mode: OperatingMode,
    /// Commands received (for test verification)
    received_commands: Vec<Vec<u8>>,
}

/// The mathematical value of a `VirtualAmplifier`.
pub struct VirtualAmplifierModel {
    pub protocol: Protocol,
    pub civ_address: Option<u8>,
    pub frequency_hz: u64,
    pub mode: OperatingMode,
    pub received: Seq<Seq<u8>>,
}

pub open spec fn byte_strings(v: Seq<Vec<u8>>) -> Seq<Seq<u8>> {
    Seq::new(v.len(), |i: int| v[i]@)
}

impl View for VirtualAmplifier {
    type V = VirtualAmplifierModel;

    closed spec fn view(&self) -> VirtualAmplifierModel {
        VirtualAmplifierModel {
            protocol: self.protocol,
            civ_address: self.civ_address,
            frequency_hz: self.frequency_hz,
            mode: self.mode,
            received: byte_strings(self.received_commands@),
        }
    }
}

/// The virtual amplifier after it is sent `d`: the command is recorded,
/// and a frequency or mode it sets is taken over.
pub open spec fn amp_after(a: VirtualAmplifierModel, d: Seq<u8>) -> VirtualAmplifierModel {
    VirtualAmplifierModel {
        frequency_hz: match amp_frequency_update(a.protocol, d) {
            Some(f) => f,
            None => a.frequency_hz,
        },
        mode: match amp_mode_update(a.protocol, d) {
            Some(m) => m,
            None => a.mode,
        },
        received: a.received.push(d),
        ..a
    }
}

impl VirtualAmplifier {
    /// Create a new virtual amplifier, tuned to 14.250 MHz USB
    pub fn new(protocol: Protocol, civ_address: Option<u8>) -> (r: Self)
        ensures
            r@ == (VirtualAmplifierModel {
                protocol,
                civ_address,
                frequency_hz: 14_250_000,
                mode: OperatingMode::Usb,
                received: Seq::empty(),
            }),
    {
        let r = VirtualAmplifier {
            protocol,
            civ_address,
            frequency_hz: 14_250_000,
            mode: OperatingMode::Usb,
            received_commands: Vec::new(),
        };
        proof {
            assert(r@.received =~= Seq::<Seq<u8>>::empty());
        }
        r
    }

    /// Get the protocol
    pub fn protocol(&self) -> (r: Protocol)
        ensures
            r == self@.protocol,
    {
        self.protocol
    }

    /// Get the CI-V address
    pub fn civ_address(&self) -> (r: Option<u8>)
        ensures
            r == self@.civ_address,
    {
        self.civ_address
    }

    /// Get current frequency
    pub fn frequency_hz(&self) -> (r: u64)
        ensures
            r == self@.frequency_hz,
    {
        self.frequency_hz
    }

    /// Get current mode
    pub fn mode(&self) -> (r: OperatingMode)
        ensures
            r == self@.mode,
    {
        self.mode
    }

    /// Process a command sent to the amplifier: it is recorded, and a
    /// frequency or mode it sets is taken over. The virtual amplifier never
    /// answers.
    pub fn process_command(&mut self, data: &[u8]) -> (r: Option<Vec<u8>>)
        ensures
            final(self)@ == amp_after(old(self)@, data@),
            r is None,
    {
        let mut copy: Vec<u8> = Vec::new();
        push_all(&mut copy, data);
        self.received_commands.push(copy);
        proof {
            assert(copy@ =~= data@);
            assert(byte_strings(self.received_commands@) =~= old(self)@.received.push(data@));
        }
        match self.protocol {
            Protocol::Kenwood | Protocol::Elecraft => self.process_kenwood_command(data),
            Protocol::IcomCIV => self.process_icom_command(data),
            _ => None,
        }
    }

    /// Process a Kenwood-style command (`FA<digits>;`, `MD<digit>;`).
    fn process_kenwood_command(&mut self, data: &[u8]) -> (r: Option<Vec<u8>>)
        ensures
            final(self)@ == (VirtualAmplifierModel {
                frequency_hz: match amp_kenwood_frequency(data@) {
                    Some(f) => f,
                    None => old(self)@.frequency_hz,
                },
                mode: match amp_kenwood_mode_of(data@) {
                    Some(m) => m,
                    None => old(self)@.mode,
                },
                ..old(self)@
            }),
            r is None,
    {
        let n = data.len();
        if n >= 3 && data[0] == 70u8 && data[1] == 65u8 && data[n - 1] == 59u8 {
            if let Some(freq) = parse_u64(slice_subrange(data, 2, n - 1)) {
                self.frequency_hz = freq;
            }
        }
        if n == 4 && data[0] == 77u8 && data[1] == 68u8 && data[3] == 59u8 {
            if let Some(mode) = Self::kenwood_mode_from_byte(data[2]) {
                self.mode = mode;
            }
        }
        None
    }

    /// Process an Icom CI-V command
    /// (`FE FE <to> <from> <cmd> [<sub>] [<data>] FD`).
    fn process_icom_command(&mut self, data: &[u8]) -> (r: Option<Vec<u8>>)
        ensures
            final(self)@ == (VirtualAmplifierModel {
                frequency_hz: match amp_icom_frequency(data@) {
                    Some(f) => f,
                    None => old(self)@.frequency_hz,
                },
                mode: match amp_icom_mode_of(data@) {
                    Some(m) => m,
                    None => old(self)@.mode,
                },
                ..old(self)@
            }),
            r is None,
    {
        if data.len() < 6 || data[0] != 0xFE || data[1] != 0xFE {
            return None;
        }
        proof {
            lemma_first_index_of_found(data@, 0xFDu8);
        }
        let fd_pos = match find_byte(data, 0xFD) {
            Some(k) => k,
            None => {
                return None;
            },
        };
        if fd_pos < 5 {
            return None;
        }
        let cmd = data[4];
        if cmd == 0x00 || (cmd == 0x05 && data[5] == 0x00) {
            let freq_start: usize = if cmd == 0x05 {
                6
            } else {
                5
            };
            if let Some(freq) = Self::parse_icom_bcd_frequency(slice_subrange(data, freq_start, fd_pos)) {
                self.frequency_hz = freq;
            }
        }
        if cmd == 0x01 || cmd == 0x06 {
            let mode_byte = data[5];
            if let Some(mode) = Self::icom_mode_from_byte(mode_byte) {
                self.mode = mode;
            }
        }
        None
    }

    /// Parse a 5-byte packed decimal frequency, least significant byte
    /// first; `None` when fewer than five bytes are given.
    pub(crate) fn parse_icom_bcd_frequency(data: &[u8]) -> (r: Option<u64>)
        ensures
            data@.len() < 5 ==> r is None,
            data@.len() >= 5 ==> r == Some(amp_bcd_value(data@, 5) as u64),
            data@.len() >= 5 ==> amp_bcd_value(data@, 5) < 2 * pow10(10),
    {
        if data.len() < 5 {
            return None;
        }
        let mut freq: u64 = 0;
        let mut multiplier: u64 = 1;
        let mut i: usize = 0;
        proof {
            lemma_pow10_mono(0, 10);
        }
        while i < 5
            invariant
                i <= 5,
                data@.len() >= 5,
                multiplier == pow10(2 * i as nat),
                freq == amp_bcd_value(data@, i as nat),
                freq < 2 * multiplier,
                multiplier <= pow10(10),
            decreases 5 - i,
        {
            let byte = data[i];
            let low = (byte % 16) as u64;
            let high = (byte / 16) as u64;
            proof {
                reveal_with_fuel(pow10, 3);
                assert(pow10(2 * i as nat + 1) == 10 * pow10(2 * i as nat));
                assert(pow10(2 * i as nat + 2) == 10 * pow10(2 * i as nat + 1));
                assert(pow10(10) == 10_000_000_000) by {
                    reveal_with_fuel(pow10, 11);
                }
                if i < 5 {
                    lemma_pow10_mono(2 * i as nat + 2, 10);
                }
                assert(low * multiplier <= 15 * multiplier) by (nonlinear_arith)
                    requires
                        low <= 15,
                ;
                assert(high * (10 * multiplier) <= 15 * (10 * multiplier)) by (nonlinear_arith)
                    requires
                        high <= 15,
                ;
            }
            freq = freq + low * multiplier;
            multiplier = multiplier * 10;
            freq = freq + high * multiplier;
            multiplier = multiplier * 10;
            i = i + 1;
        }
        Some(freq)
    }

    /// Convert a Kenwood mode digit to an operating mode
    pub(crate) fn kenwood_mode_from_byte(b: u8) -> (r: Option<OperatingMode>)
        ensures
            r == amp_kenwood_mode(b),
    {
        match b {
            49u8 => Some(OperatingMode::Lsb),
            50u8 => Some(OperatingMode::Usb),
            51u8 => Some(OperatingMode::Cw),
            52u8 => Some(OperatingMode::Fm),
            53u8 => Some(OperatingMode::Am),
            54u8 => Some(OperatingMode::Dig),
            55u8 => Some(OperatingMode::CwR),
            57u8 => Some(OperatingMode::DigL),
            _ => None,
        }
    }

    /// Convert an Icom mode byte to an operating mode
    pub(crate) fn icom_mode_from_byte(b: u8) -> (r: Option<OperatingMode>)
        ensures
            r == amp_icom_mode(b),
    {
        match b {
            0x00 => Some(OperatingMode::Lsb),
            0x01 => Some(OperatingMode::Usb),
            0x02 => Some(OperatingMode::Am),
            0x03 => Some(OperatingMode::Cw),
            0x04 => Some(OperatingMode::Rtty),
            0x05 => Some(OperatingMode::Fm),
            0x07 => Some(OperatingMode::CwR),
            0x08 => Some(OperatingMode::RttyR),
            _ => None,
        }
    }

    /// Get all received commands (for test verification)
    pub fn received_commands(&self) -> (r: &[Vec<u8>])
        ensures
            byte_strings(r@) == self@.received,
    {
        self.received_commands.as_slice()
    }

    /// Clear received commands
    pub fn clear_received(&mut self)
        ensures
            final(self)@ == (VirtualAmplifierModel { received: Seq::empty(), ..old(self)@ }),
    {
        self.received_commands = Vec::new();
        proof {
            assert(byte_strings(self.received_commands@) =~= Seq::<Seq<u8>>::empty());
        }
    }
}

/// `pow10` grows with its exponent.
pub proof fn lemma_pow10_mono(a: nat, b: nat)
    requires
        a <= b,
    ensures
        pow10(a) <= pow10(b),
    decreases b,
{
    if a < b {
        lemma_pow10_mono(a, (b - 1) as nat);
    }
}

/// I/O front of a virtual amplifier: bytes written are fed to the protocol
/// codec and to the amplifier, and its answers wait to be read.
pub struct VirtualAmplifierIo {
    amplifier: VirtualAmplifier,
    codec: AnyRadioCodec,
    response_buffer: Vec<u8>,
}

impl VirtualAmplifierIo {
    /// Create a new VirtualAmplifierIo
    pub fn new(protocol: Protocol, civ_address: Option<u8>) -> (r: Self)
        ensures
            r.amp()@ == (VirtualAmplifierModel {
                protocol,
                civ_address,
                frequency_hz: 14_250_000,
                mode: OperatingMode::Usb,
                received: Seq::empty(),
            }),
            r.pending()@ == Seq::<u8>::empty(),
    {
        VirtualAmplifierIo {
            amplifier: VirtualAmplifier::new(protocol, civ_address),
            codec: create_radio_codec(protocol),
            response_buffer: Vec::new(),
        }
    }

    /// The answers not yet read.
    pub closed spec fn pending(&self) -> Vec<u8> {
        self.response_buffer
    }

    /// Get a reference to the underlying VirtualAmplifier
    pub fn amplifier(&self) -> (r: &VirtualAmplifier)
        ensures
            *r == self.amp(),
    {
        &self.amplifier
    }

    /// The underlying amplifier, by name.
    pub closed spec fn amp(&self) -> VirtualAmplifier {
        self.amplifier
    }

    /// Get a mutable reference to the underlying VirtualAmplifier
    pub fn amplifier_mut(&mut self) -> (r: &mut VirtualAmplifier)
        ensures
            *r == old(self).amp(),
            final(self).amp() == *final(r),
            final(self).pending() == old(self).pending(),
    {
        &mut self.amplifier
    }

    /// Write bytes to the amplifier: the codec takes them in and every
    /// complete command it holds is consumed, then the amplifier processes
    /// the bytes as one command. Returns how many bytes were taken (all).
    pub fn write(&mut self, buf: &[u8]) -> (r: usize)
        ensures
            r == buf@.len(),
            final(self).amp()@ == amp_after(old(self).amp()@, buf@),
            final(self).pending() == old(self).pending(),
    {
        self.codec.push_bytes(buf);
        loop
            invariant
                self.amplifier == old(self).amplifier,
                self.response_buffer == old(self).response_buffer,
            decreases codec_measure(self.codec@),
        {
            match self.codec.next_response() {
                Some(_) => {},
                None => {
                    break;
                },
            }
        }
        if let Some(answer) = self.amplifier.process_command(buf) {
            let mut answer = answer;
            self.response_buffer.append(&mut answer);
        }
        buf.len()
    }

    /// Read up to `max` pending answer bytes, oldest first.
    pub fn read(&mut self, max: usize) -> (r: Vec<u8>)
        ensures
            ({
                let n = if max < old(self).pending()@.len() {
                    max as int
                } else {
                    old(self).pending()@.len() as int
                };
                &&& r@ == old(self).pending()@.subrange(0, n)
                &&& final(self).pending()@ == old(self).pending()@.subrange(n, old(self).pending()@.len() as int)
            }),
            final(self).amp() == old(self).amp(),
    {
        let total = self.response_buffer.len();
        let n = if max < total {
            max
        } else {
            total
        };
        let head = vstd::slice::slice_to_vec(slice_subrange(self.response_buffer.as_slice(), 0, n));
        let rest = vstd::slice::slice_to_vec(slice_subrange(self.response_buffer.as_slice(), n, total));
        self.response_buffer = rest;
        head
    }
}

} // verus!
