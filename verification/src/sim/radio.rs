//! Virtual radio simulation
//!
//! A simulated radio that queues protocol-accurate reports whenever its
//! state changes.

use vstd::prelude::*;

use crate::command::{OperatingMode, RadioResponse, ResponseModel};
use crate::elecraft::ElecraftCommand;
use crate::flex::FlexCommand;
use crate::icom::{civ_encode, civ_from_response, CivCommand, CivModel};
use crate::kenwood::KenwoodCommand;
use crate::mux::amplifier::byte_strings;
use crate::mux::state::{elapsed_ms, instant_now, mode_debug_name, mode_name};
use crate::mux::translation::encode_for;
use crate::protocol::{protocol_name, EncodeCommand, FromRadioResponse, Protocol};
use crate::text::{mhz_text_khz, nearest_khz, text_from_bytes, thousandths_mhz, wire_text};
use crate::yaesu::YaesuCommand;
use crate::yaesu_ascii::{ya_encode, ya_from_response, YaesuAsciiCommand};

verus! {

/// A simulated radio that generates protocol-accurate output
#[derive(Debug)]
pub struct VirtualRadio {
    /// Unique identifier for this virtual radio
    id: String,
    /// Protocol used for encoding commands
    protocol: Protocol,
    /// Current frequency in Hz
    frequency_hz: u64,
    /// Current operating mode
    mode: OperatingMode,
    /// PTT active state
    ptt: bool,
    /// CI-V address (for Icom protocol)
    civ_address: Option<u8>,
    /// Pending output messages (protocol-encoded), oldest first
    pending_output: Vec<Vec<u8>>,
    /// Last state change, in milliseconds since the radio was created
    last_change_ms: u64,
    /// The instant the radio was created, its times' origin
    clock: std::time::Instant,
}

/// Configuration for creating a virtual radio
#[derive(Debug, Clone)]
pub struct VirtualRadioConfig {
    /// Display name/identifier
    pub id: String,
    /// Protocol to use for output encoding
    pub protocol: Protocol,
    /// Initial frequency in Hz
    pub initial_frequency_hz: u64,
    /// Initial operating mode
    pub initial_mode: OperatingMode,
    /// CI-V address (for Icom protocol)
    pub civ_address: Option<u8>,
}

impl Default for VirtualRadioConfig {
    fn default() -> (r: Self)
        ensures
            r.id@ == "Virtual Radio"@,
            r.protocol == Protocol::Kenwood,
            r.initial_frequency_hz == 14_250_000,
            r.initial_mode == OperatingMode::Usb,
            r.civ_address is None,
    {
        VirtualRadioConfig {
            id: "Virtual Radio".to_owned(),
            protocol: Protocol::Kenwood,
            initial_frequency_hz: 14_250_000,
            initial_mode: OperatingMode::Usb,
            civ_address: None,
        }
    }
}

/// The mathematical value of a `VirtualRadio`.
pub struct VirtualRadioModel {
    pub id: Seq<char>,
    pub protocol: Protocol,
    pub frequency_hz: u64,
    pub mode: OperatingMode,
    pub ptt: bool,
    pub civ_address: Option<u8>,
    /// Output waiting to be taken, oldest first
    pub pending: Seq<Seq<u8>>,
    /// Milliseconds, since the radio was created, of the last change of
    /// frequency, mode or PTT
    pub last_change_ms: u64,
}

impl View for VirtualRadio {
    type V = VirtualRadioModel;

    closed spec fn view(&self) -> VirtualRadioModel {
        VirtualRadioModel {
            id: self.id@,
            protocol: self.protocol,
            frequency_hz: self.frequency_hz,
            mode: self.mode,
            ptt: self.ptt,
            civ_address: self.civ_address,
            pending: byte_strings(self.pending_output@),
            last_change_ms: self.last_change_ms,
        }
    }
}

/// How a virtual radio of `protocol` words report `r`: CI-V frames go to
/// the controller from the radio's address (0x94, an IC-7300, by default);
/// Yaesu ASCII radios use their ASCII encoding.
pub open spec fn radio_encode(protocol: Protocol, civ: Option<u8>, r: ResponseModel) -> Option<Seq<u8>> {
    match protocol {
        Protocol::IcomCIV => match civ_from_response(r) {
            Some(m) => Some(
                civ_encode(
                    CivModel {
                        to_addr: 0xE0,
                        from_addr: match civ {
                            Some(a) => a,
                            None => 0x94,
                        },
                        command: m.command,
                    },
                ),
            ),
            None => None,
        },
        Protocol::YaesuAscii => match ya_from_response(r) {
            Some(y) => Some(ya_encode(y)),
            None => None,
        },
        _ => encode_for(protocol, 0, r),
    }
}

/// The radio after queueing report `r`: its encoding joins the output when
/// the protocol can carry it.
pub open spec fn queued(s: VirtualRadioModel, r: ResponseModel) -> VirtualRadioModel {
    match radio_encode(s.protocol, s.civ_address, r) {
        Some(b) => VirtualRadioModel { pending: s.pending.push(b), ..s },
        None => s,
    }
}

impl VirtualRadio {
    /// Create a new virtual radio: 14.250 MHz USB, PTT off
    pub fn new(id: String, protocol: Protocol) -> (r: Self)
        ensures
            r@ == (VirtualRadioModel {
                id: id@,
                protocol,
                frequency_hz: 14_250_000,
                mode: OperatingMode::Usb,
                ptt: false,
                civ_address: None,
                pending: Seq::empty(),
                last_change_ms: 0,
            }),
    {
        let r = VirtualRadio {
            id,
            protocol,
            frequency_hz: 14_250_000,
            mode: OperatingMode::Usb,
            ptt: false,
            civ_address: None,
            pending_output: Vec::new(),
            last_change_ms: 0,
            clock: instant_now(),
        };
        proof {
            assert(r@.pending =~= Seq::<Seq<u8>>::empty());
        }
        r
    }

    /// Create a virtual radio from configuration
    pub fn from_config(config: VirtualRadioConfig) -> (r: Self)
        ensures
            r@ == (VirtualRadioModel {
                id: config.id@,
                protocol: config.protocol,
                frequency_hz: config.initial_frequency_hz,
                mode: config.initial_mode,
                ptt: false,
                civ_address: config.civ_address,
                pending: Seq::empty(),
                last_change_ms: 0,
            }),
    {
        let r = VirtualRadio {
            id: config.id,
            protocol: config.protocol,
            frequency_hz: config.initial_frequency_hz,
            mode: config.initial_mode,
            ptt: false,
            civ_address: config.civ_address,
            pending_output: Vec::new(),
            last_change_ms: 0,
            clock: instant_now(),
        };
        proof {
            assert(r@.pending =~= Seq::<Seq<u8>>::empty());
        }
        r
    }

    /// Get the radio's unique identifier
    pub fn id(&self) -> (r: &str)
        ensures
            r@ == self@.id,
    {
        self.id.as_str()
    }

    /// Get the protocol used by this radio
    pub fn protocol(&self) -> (r: Protocol)
        ensures
            r == self@.protocol,
    {
        self.protocol
    }

    /// Set the protocol (re-encodes future commands)
    pub fn set_protocol(&mut self, protocol: Protocol)
        ensures
            final(self)@ == (VirtualRadioModel { protocol, ..old(self)@ }),
    {
        self.protocol = protocol;
    }

    /// Get the current frequency in Hz
    pub fn frequency_hz(&self) -> (r: u64)
        ensures
            r == self@.frequency_hz,
    {
        self.frequency_hz
    }

    /// Set the frequency at `now_ms` (milliseconds since creation): a change records the time and queues
    /// a report; setting the same value changes nothing.
    pub fn set_frequency_at(&mut self, hz: u64, now_ms: u64)
        ensures
            old(self)@.frequency_hz == hz ==> final(self)@ == old(self)@,
            old(self)@.frequency_hz != hz ==> final(self)@ == queued(
                VirtualRadioModel { frequency_hz: hz, last_change_ms: now_ms, ..old(self)@ },
                ResponseModel::Frequency { hz },
            ),
    {
        if self.frequency_hz != hz {
            self.frequency_hz = hz;
            self.last_change_ms = now_ms;
            self.queue_command(RadioResponse::Frequency { hz });
        }
    }

    /// Set the frequency: a change records the time since creation and queues a report.
    pub fn set_frequency(&mut self, hz: u64)
        ensures
            old(self)@.frequency_hz == hz ==> final(self)@ == old(self)@,
            old(self)@.frequency_hz != hz ==> final(self)@ == queued(
                VirtualRadioModel { frequency_hz: hz, last_change_ms: final(self)@.last_change_ms, ..old(self)@ },
                ResponseModel::Frequency { hz },
            ),
    {
        let now = elapsed_ms(&self.clock);
        self.set_frequency_at(hz, now);
    }

    /// Get the current operating mode
    pub fn mode(&self) -> (r: OperatingMode)
        ensures
            r == self@.mode,
    {
        self.mode
    }

    /// Set the operating mode at `now_ms` (milliseconds since creation): a change records the time and queues
    /// a report; setting the same value changes nothing.
    pub fn set_mode_at(&mut self, mode: OperatingMode, now_ms: u64)
        ensures
            old(self)@.mode == mode ==> final(self)@ == old(self)@,
            old(self)@.mode != mode ==> final(self)@ == queued(
                VirtualRadioModel { mode: mode, last_change_ms: now_ms, ..old(self)@ },
                ResponseModel::Mode { mode },
            ),
    {
        if self.mode != mode {
            self.mode = mode;
            self.last_change_ms = now_ms;
            self.queue_command(RadioResponse::Mode { mode });
        }
    }

    /// Set the operating mode: a change records the time since creation and queues a report.
    pub fn set_mode(&mut self, mode: OperatingMode)
        ensures
            old(self)@.mode == mode ==> final(self)@ == old(self)@,
            old(self)@.mode != mode ==> final(self)@ == queued(
                VirtualRadioModel { mode: mode, last_change_ms: final(self)@.last_change_ms, ..old(self)@ },
                ResponseModel::Mode { mode },
            ),
    {
        let now = elapsed_ms(&self.clock);
        self.set_mode_at(mode, now);
    }

    /// Get the PTT state
    pub fn ptt(&self) -> (r: bool)
        ensures
            r == self@.ptt,
    {
        self.ptt
    }

    /// Set the PTT state at `now_ms` (milliseconds since creation): a change records the time and queues
    /// a report; setting the same value changes nothing.
    pub fn set_ptt_at(&mut self, active: bool, now_ms: u64)
        ensures
            old(self)@.ptt == active ==> final(self)@ == old(self)@,
            old(self)@.ptt != active ==> final(self)@ == queued(
                VirtualRadioModel { ptt: active, last_change_ms: now_ms, ..old(self)@ },
                ResponseModel::Ptt { active },
            ),
    {
        if self.ptt != active {
            self.ptt = active;
            self.last_change_ms = now_ms;
            self.queue_command(RadioResponse::Ptt { active });
        }
    }

    /// Set the PTT state: a change records the time since creation and queues a report.
    pub fn set_ptt(&mut self, active: bool)
        ensures
            old(self)@.ptt == active ==> final(self)@ == old(self)@,
            old(self)@.ptt != active ==> final(self)@ == queued(
                VirtualRadioModel { ptt: active, last_change_ms: final(self)@.last_change_ms, ..old(self)@ },
                ResponseModel::Ptt { active },
            ),
    {
        let now = elapsed_ms(&self.clock);
        self.set_ptt_at(active, now);
    }

    /// Get the CI-V address (Icom only)
    pub fn civ_address(&self) -> (r: Option<u8>)
        ensures
            r == self@.civ_address,
    {
        self.civ_address
    }

    /// Set the CI-V address (Icom only)
    pub fn set_civ_address(&mut self, addr: Option<u8>)
        ensures
            final(self)@ == (VirtualRadioModel { civ_address: addr, ..old(self)@ }),
    {
        self.civ_address = addr;
    }


    /// The time of the last state change, in milliseconds since creation
    pub fn last_change(&self) -> (r: u64)
        ensures
            r == self@.last_change_ms,
    {
        self.last_change_ms
    }

    /// Queue a report, encoded in the radio's protocol
    pub fn queue_command(&mut self, cmd: RadioResponse)
        ensures
            final(self)@ == queued(old(self)@, cmd@),
    {
        if let Some(encoded) = self.encode_command(&cmd) {
            self.pending_output.push(encoded);
            proof {
                assert(byte_strings(self.pending_output@) =~= byte_strings(old(self).pending_output@).push(
                    radio_encode(old(self)@.protocol, old(self)@.civ_address, cmd@)->0,
                ));
            }
        }
    }

    /// Queue a full status report (frequency, mode, PTT)
    pub fn send_status_report(&mut self)
        ensures
            final(self)@ == queued(
                old(self)@,
                ResponseModel::Status {
                    frequency_hz: Some(old(self)@.frequency_hz),
                    mode: Some(old(self)@.mode),
                    ptt: Some(old(self)@.ptt),
                    vfo: None,
                },
            ),
    {
        let cmd = RadioResponse::Status {
            frequency_hz: Some(self.frequency_hz),
            mode: Some(self.mode),
            ptt: Some(self.ptt),
            vfo: None,
        };
        self.queue_command(cmd);
    }

    /// Take the next pending output bytes
    pub fn take_output(&mut self) -> (r: Option<Vec<u8>>)
        ensures
            old(self)@.pending.len() == 0 ==> r is None && final(self)@ == old(self)@,
            old(self)@.pending.len() > 0 ==> {
                &&& r matches Some(b) && b@ == old(self)@.pending[0]
                &&& final(self)@ == (VirtualRadioModel { pending: old(self)@.pending.drop_first(), ..old(self)@ })
            },
    {
        if self.pending_output.len() == 0 {
            return None;
        }
        let b = self.pending_output.remove(0);
        proof {
            assert(byte_strings(self.pending_output@) =~= old(self)@.pending.drop_first());
        }
        Some(b)
    }

    /// Check if there is pending output
    pub fn has_output(&self) -> (r: bool)
        ensures
            r == (self@.pending.len() > 0),
    {
        self.pending_output.len() > 0
    }

    /// Clear all pending output
    pub fn clear_output(&mut self)
        ensures
            final(self)@ == (VirtualRadioModel { pending: Seq::empty(), ..old(self)@ }),
    {
        self.pending_output = Vec::new();
        proof {
            assert(byte_strings(self.pending_output@) =~= Seq::<Seq<u8>>::empty());
        }
    }

    /// Get the number of pending output messages
    pub fn output_count(&self) -> (r: usize)
        ensures
            r == self@.pending.len(),
    {
        self.pending_output.len()
    }

    /// Encode a report in the radio's protocol
    fn encode_command(&self, cmd: &RadioResponse) -> (r: Option<Vec<u8>>)
        ensures
            match radio_encode(self@.protocol, self@.civ_address, cmd@) {
                Some(b) => r matches Some(v) && v@ == b,
                None => r is None,
            },
    {
        match self.protocol {
            Protocol::Kenwood => match KenwoodCommand::from_radio_response(cmd) {
                Some(c) => Some(c.encode()),
                None => None,
            },
            Protocol::Elecraft => match ElecraftCommand::from_radio_response(cmd) {
                Some(c) => Some(c.encode()),
                None => None,
            },
            Protocol::IcomCIV => match CivCommand::from_radio_response(cmd) {
                Some(c) => {
                    let addr = match self.civ_address {
                        Some(a) => a,
                        None => 0x94,
                    };
                    Some(CivCommand::new(0xE0, addr, c.command).encode())
                },
                None => None,
            },
            Protocol::Yaesu => match YaesuCommand::from_radio_response(cmd) {
                Some(c) => Some(c.encode()),
                None => None,
            },
            Protocol::YaesuAscii => match YaesuAsciiCommand::from_radio_response(cmd) {
                Some(c) => Some(c.encode()),
                None => None,
            },
            Protocol::FlexRadio => match FlexCommand::from_radio_response(cmd) {
                Some(c) => Some(c.encode()),
                None => None,
            },
        }
    }

    /// Format frequency for display: to the nearest kHz, `W.FFF MHz`
    pub fn frequency_display(&self) -> (r: String)
        ensures
            r@ == wire_text(thousandths_mhz(nearest_khz(self@.frequency_hz as nat))),
    {
        let b = mhz_text_khz(self.frequency_hz);
        text_from_bytes(b.as_slice())
    }

    /// Format mode for display: the mode's name
    pub fn mode_display(&self) -> (r: String)
        ensures
            r@ == mode_debug_name(self@.mode),
    {
        mode_name(self.mode).to_owned()
    }

    /// A summary of the current state:
    /// `<id> (<protocol>) - <frequency> <mode> [TX]` (the last part only
    /// while transmitting).
    pub fn state_summary(&self) -> (r: String)
        ensures
            r@ == self@.id + " ("@ + protocol_name(self@.protocol) + ") - "@ + wire_text(
                thousandths_mhz(nearest_khz(self@.frequency_hz as nat)),
            ) + " "@ + mode_debug_name(self@.mode) + " "@ + (if self@.ptt {
                "[TX]"@
            } else {
                ""@
            }),
    {
        let s = self.id.clone();
        let s = s.concat(" (");
        let s = s.concat(self.protocol.name());
        let s = s.concat(") - ");
        let f = self.frequency_display();
        let s = s.concat(f.as_str());
        let s = s.concat(" ");
        let s = s.concat(mode_name(self.mode));
        let s = s.concat(" ");
        let s = s.concat(if self.ptt {
            "[TX]"
        } else {
            ""
        });
        s
    }
}

} // verus!
