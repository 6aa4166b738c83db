//! Radio state tracking

use vstd::prelude::*;

use crate::command::OperatingMode;
use crate::models::{RadioModel, RadioModelSpec};
use crate::protocol::Protocol;
use crate::text::{mhz_text_khz, nearest_khz, text_from_bytes, thousandths_mhz};

verus! {

/// `std::time::Instant`, a reading of the monotonic clock, carried
/// through unchanged.
#[verifier::external_type_specification]
#[verifier::external_body]
pub struct ExInstant(std::time::Instant);

/// `Instant::now()`: the monotonic clock now. Nothing is stated of it.
#[verifier::external_body]
pub(crate) fn instant_now() -> std::time::Instant {
    std::time::Instant::now()
}

/// `since.elapsed().as_millis()`, as a `u64`: whole milliseconds on the
/// monotonic clock since `since`. Nothing is stated of the value: it is
/// the time.
#[verifier::external_body]
pub(crate) fn elapsed_ms(since: &std::time::Instant) -> u64 {
    since.elapsed().as_millis() as u64
}

/// Unique identifier for a radio in the multiplexer
#[derive(Debug, Clone, Copy, PartialEq, Eq, Hash, Structural)]
pub struct RadioHandle(pub u32);

impl RadioHandle {
    /// Get the raw handle value
    pub fn as_u32(&self) -> (r: u32)
        ensures
            r == self.0,
    {
        self.0
    }
}

/// Current state of a connected radio. Times are milliseconds on a
/// monotonic clock: the multiplexer's for the radios it tracks, otherwise
/// since the state was created.
#[derive(Debug)]
pub struct RadioState {
    /// Unique handle
    pub handle: RadioHandle,
    /// Display name
    pub name: String,
    /// Serial port
    pub port: String,
    /// Protocol in use
    pub protocol: Protocol,
    /// Identified radio model
    pub model: Option<RadioModel>,
    /// Current frequency in Hz
    pub frequency_hz: Option<u64>,
    /// Current operating mode
    pub mode: Option<OperatingMode>,
    /// PTT active
    pub ptt: bool,
    /// CI-V address (for Icom)
    pub civ_address: Option<u8>,
    /// Last activity time
    pub last_activity_ms: u64,
    /// Last frequency change time
    pub last_freq_change_ms: Option<u64>,
    /// Whether this is a simulated radio
    pub is_simulated: bool,
    /// The instant this state's own times are measured from
    pub clock: std::time::Instant,
}

/// The mathematical value of a `RadioState`.
pub struct RadioStateModel {
    pub handle: RadioHandle,
    pub name: Seq<char>,
    pub port: Seq<char>,
    pub protocol: Protocol,
    pub model: Option<RadioModelSpec>,
    pub frequency_hz: Option<u64>,
    pub mode: Option<OperatingMode>,
    pub ptt: bool,
    pub civ_address: Option<u8>,
    pub last_activity_ms: u64,
    pub last_freq_change_ms: Option<u64>,
    pub is_simulated: bool,
}

impl View for RadioState {
    type V = RadioStateModel;

    open spec fn view(&self) -> RadioStateModel {
        RadioStateModel {
            handle: self.handle,
            name: self.name@,
            port: self.port@,
            protocol: self.protocol,
            model: match self.model {
                Some(m) => Some(m@),
                None => None,
            },
            frequency_hz: self.frequency_hz,
            mode: self.mode,
            ptt: self.ptt,
            civ_address: self.civ_address,
            last_activity_ms: self.last_activity_ms,
            last_freq_change_ms: self.last_freq_change_ms,
            is_simulated: self.is_simulated,
        }
    }
}

/// The radio the multiplexer tracks, as it stands at registration.
pub open spec fn fresh_radio(
    handle: RadioHandle,
    name: Seq<char>,
    port: Seq<char>,
    protocol: Protocol,
    now_ms: u64,
    simulated: bool,
) -> RadioStateModel {
    RadioStateModel {
        handle,
        name,
        port,
        protocol,
        model: None,
        frequency_hz: None,
        mode: None,
        ptt: false,
        civ_address: None,
        last_activity_ms: now_ms,
        last_freq_change_ms: None,
        is_simulated: simulated,
    }
}

/// A report of frequency `hz` at `now`: the frequency is recorded, the
/// change time only moves when the frequency actually changes, and the
/// activity time moves.
pub open spec fn with_frequency(s: RadioStateModel, hz: u64, now_ms: u64) -> RadioStateModel {
    RadioStateModel {
        frequency_hz: Some(hz),
        last_freq_change_ms: if s.frequency_hz != Some(hz) {
            Some(now_ms)
        } else {
            s.last_freq_change_ms
        },
        last_activity_ms: now_ms,
        ..s
    }
}

pub open spec fn with_mode(s: RadioStateModel, mode: OperatingMode, now_ms: u64) -> RadioStateModel {
    RadioStateModel { mode: Some(mode), last_activity_ms: now_ms, ..s }
}

pub open spec fn with_ptt(s: RadioStateModel, ptt: bool, now_ms: u64) -> RadioStateModel {
    RadioStateModel { ptt, last_activity_ms: now_ms, ..s }
}

pub open spec fn touched(s: RadioStateModel, now_ms: u64) -> RadioStateModel {
    RadioStateModel { last_activity_ms: now_ms, ..s }
}

/// The display text of a frequency: to the nearest kHz as `W.FFF MHz`, or
/// `---` when unknown.
pub open spec fn frequency_display_text(f: Option<u64>) -> Seq<u8> {
    match f {
        Some(hz) => thousandths_mhz(nearest_khz(hz as nat)),
        None => seq![45u8, 45u8, 45u8],
    }
}

/// The name `Debug` gives each mode.
pub open spec fn mode_debug_name(m: OperatingMode) -> Seq<char> {
    match m {
        OperatingMode::Lsb => "Lsb"@,
        OperatingMode::Usb => "Usb"@,
        OperatingMode::Cw => "Cw"@,
        OperatingMode::CwR => "CwR"@,
        OperatingMode::Am => "Am"@,
        OperatingMode::Fm => "Fm"@,
        OperatingMode::FmN => "FmN"@,
        OperatingMode::Dig => "Dig"@,
        OperatingMode::DigU => "DigU"@,
        OperatingMode::DigL => "DigL"@,
        OperatingMode::Pkt => "Pkt"@,
        OperatingMode::Data => "Data"@,
        OperatingMode::DataU => "DataU"@,
        OperatingMode::DataL => "DataL"@,
        OperatingMode::Rtty => "Rtty"@,
        OperatingMode::RttyR => "RttyR"@,
    }
}

/// The name `Debug` gives a mode.
pub fn mode_name(m: OperatingMode) -> (r: &'static str)
    ensures
        r@ == mode_debug_name(m),
{
    match m {
        OperatingMode::Lsb => "Lsb",
        OperatingMode::Usb => "Usb",
        OperatingMode::Cw => "Cw",
        OperatingMode::CwR => "CwR",
        OperatingMode::Am => "Am",
        OperatingMode::Fm => "Fm",
        OperatingMode::FmN => "FmN",
        OperatingMode::Dig => "Dig",
        OperatingMode::DigU => "DigU",
        OperatingMode::DigL => "DigL",
        OperatingMode::Pkt => "Pkt",
        OperatingMode::Data => "Data",
        OperatingMode::DataU => "DataU",
        OperatingMode::DataL => "DataL",
        OperatingMode::Rtty => "Rtty",
        OperatingMode::RttyR => "RttyR",
    }
}

/// Text for a frequency shown to a user (see `frequency_display_text`).
pub fn frequency_text(f: Option<u64>) -> (r: String)
    ensures
        r@ == crate::text::wire_text(frequency_display_text(f)),
{
    match f {
        Some(hz) => {
            let b = mhz_text_khz(hz);
            text_from_bytes(b.as_slice())
        },
        None => {
            let b: Vec<u8> = vec![45u8, 45u8, 45u8];
            proof {
                assert(b@ =~= seq![45u8, 45u8, 45u8]);
            }
            text_from_bytes(b.as_slice())
        },
    }
}

impl RadioState {
    /// Create a new radio state, active as of `now_ms`.
    pub fn new_at(handle: RadioHandle, name: String, port: String, protocol: Protocol, now_ms: u64) -> (r: Self)
        ensures
            r@ == fresh_radio(handle, name@, port@, protocol, now_ms, false),
    {
        RadioState {
            handle,
            name,
            port,
            protocol,
            model: None,
            frequency_hz: None,
            mode: None,
            ptt: false,
            civ_address: None,
            last_activity_ms: now_ms,
            last_freq_change_ms: None,
            is_simulated: false,
            clock: instant_now(),
        }
    }

    /// Create a new radio state, active as of its creation (time 0 on its
    /// own clock).
    pub fn new(handle: RadioHandle, name: String, port: String, protocol: Protocol) -> (r: Self)
        ensures
            r@ == fresh_radio(handle, name@, port@, protocol, 0, false),
    {
        Self::new_at(handle, name, port, protocol, 0)
    }

    /// Create a new simulated radio state (port `[SIM]`), active as of its
    /// creation (time 0 on its own clock).
    pub fn new_simulated(handle: RadioHandle, name: String, protocol: Protocol) -> (r: Self)
        ensures
            r@ == fresh_radio(handle, name@, "[SIM]"@, protocol, 0, true),
    {
        RadioState {
            handle,
            name,
            port: "[SIM]".to_owned(),
            protocol,
            model: None,
            frequency_hz: None,
            mode: None,
            ptt: false,
            civ_address: None,
            last_activity_ms: 0,
            last_freq_change_ms: None,
            is_simulated: true,
            clock: instant_now(),
        }
    }

    /// Record activity at `now_ms`.
    pub fn touch_at(&mut self, now_ms: u64)
        ensures
            final(self)@ == touched(old(self)@, now_ms),
    {
        self.last_activity_ms = now_ms;
    }

    /// Update activity timestamp
    pub fn touch(&mut self)
        ensures
            final(self)@ == touched(old(self)@, final(self)@.last_activity_ms),
    {
        let now = elapsed_ms(&self.clock);
        self.touch_at(now);
    }

    /// Update frequency as of `now_ms`.
    pub fn set_frequency_at(&mut self, hz: u64, now_ms: u64)
        ensures
            final(self)@ == with_frequency(old(self)@, hz, now_ms),
    {
        if self.frequency_hz != Some(hz) {
            self.frequency_hz = Some(hz);
            self.last_freq_change_ms = Some(now_ms);
        }
        self.touch_at(now_ms);
    }

    /// Update frequency
    pub fn set_frequency(&mut self, hz: u64)
        ensures
            final(self)@ == with_frequency(old(self)@, hz, final(self)@.last_activity_ms),
    {
        let now = elapsed_ms(&self.clock);
        self.set_frequency_at(hz, now);
    }

    /// Update mode as of `now_ms`.
    pub fn set_mode_at(&mut self, mode: OperatingMode, now_ms: u64)
        ensures
            final(self)@ == with_mode(old(self)@, mode, now_ms),
    {
        self.mode = Some(mode);
        self.touch_at(now_ms);
    }

    /// Update mode
    pub fn set_mode(&mut self, mode: OperatingMode)
        ensures
            final(self)@ == with_mode(old(self)@, mode, final(self)@.last_activity_ms),
    {
        let now = elapsed_ms(&self.clock);
        self.set_mode_at(mode, now);
    }

    /// Update PTT state as of `now_ms`.
    pub fn set_ptt_at(&mut self, ptt: bool, now_ms: u64)
        ensures
            final(self)@ == with_ptt(old(self)@, ptt, now_ms),
    {
        self.ptt = ptt;
        self.touch_at(now_ms);
    }

    /// Update PTT state
    pub fn set_ptt(&mut self, ptt: bool)
        ensures
            final(self)@ == with_ptt(old(self)@, ptt, final(self)@.last_activity_ms),
    {
        let now = elapsed_ms(&self.clock);
        self.set_ptt_at(ptt, now);
    }

    /// Format frequency for display: `14.250 MHz`, or `---` when unknown.
    pub fn frequency_display(&self) -> (r: String)
        ensures
            r@ == crate::text::wire_text(frequency_display_text(self.frequency_hz)),
    {
        frequency_text(self.frequency_hz)
    }

    /// Format mode for display: the mode's name, or `---` when unknown.
    pub fn mode_display(&self) -> (r: String)
        ensures
            r@ == match self.mode {
                Some(m) => mode_debug_name(m),
                None => "---"@,
            },
    {
        match self.mode {
            Some(m) => mode_name(m).to_owned(),
            None => "---".to_owned(),
        }
    }
}

/// Switching mode for the multiplexer
#[derive(Debug, Clone, Copy, PartialEq, Eq, Structural)]
pub enum SwitchingMode {
    /// User manually selects the active radio
    Manual,
    /// Switch when a radio changes frequency
    FrequencyTriggered,
    /// Combination of PTT and frequency (legacy)
    Automatic,
}

impl Default for SwitchingMode {
    fn default() -> (r: Self)
        ensures
            r == SwitchingMode::FrequencyTriggered,
    {
        SwitchingMode::FrequencyTriggered
    }
}

impl SwitchingMode {
    /// Get human-readable name
    pub fn name(&self) -> (r: &'static str)
        ensures
            r@ == match *self {
                SwitchingMode::Manual => "Manual"@,
                SwitchingMode::FrequencyTriggered => "Frequency Triggered"@,
                SwitchingMode::Automatic => "Automatic"@,
            },
    {
        match self {
            Self::Manual => "Manual",
            Self::FrequencyTriggered => "Frequency Triggered",
            Self::Automatic => "Automatic",
        }
    }

    /// Get description
    pub fn description(&self) -> (r: &'static str)
        ensures
            r@ == match *self {
                SwitchingMode::Manual => "Manually select which radio controls the amplifier"@,
                SwitchingMode::FrequencyTriggered => "Switch when a radio changes operating frequency"@,
                SwitchingMode::Automatic => "Switch on PTT or frequency change"@,
            },
    {
        match self {
            Self::Manual => "Manually select which radio controls the amplifier",
            Self::FrequencyTriggered => "Switch when a radio changes operating frequency",
            Self::Automatic => "Switch on PTT or frequency change",
        }
    }
}

/// Amplifier output configuration
#[derive(Debug, Clone)]
pub struct AmplifierConfig {
    /// Serial port for amplifier
    pub port: String,
    /// Protocol to use
    pub protocol: Protocol,
    /// Baud rate
    pub baud_rate: u32,
    /// CI-V address (if using Icom)
    pub civ_address: Option<u8>,
}

impl Default for AmplifierConfig {
    fn default() -> (r: Self)
        ensures
            r.port@ == Seq::<char>::empty(),
            r.protocol == Protocol::Kenwood,
            r.baud_rate == 38400,
            r.civ_address == None::<u8>,
    {
        AmplifierConfig {
            port: String::new(),
            protocol: Protocol::Kenwood,
            baud_rate: 38400,
            civ_address: None,
        }
    }
}

/// State the amplifier believes the radio is in: what the mux has told the
/// amplifier, so that its queries can be answered from cache and
/// unsolicited updates sent when it asked for auto-information.
#[derive(Debug, Clone, Copy, PartialEq, Eq, Structural)]
pub struct AmplifierEmulatedState {
    /// Frequency in Hz that amp believes radio is on
    pub frequency_hz: Option<u64>,
    /// Operating mode that amp believes radio is in
    pub mode: Option<OperatingMode>,
    /// PTT state that amp believes radio is in
    pub ptt: bool,
    /// Whether auto-info mode is enabled (amp wants unsolicited updates)
    pub auto_info_enabled: bool,
}

impl Default for AmplifierEmulatedState {
    fn default() -> (r: Self)
        ensures
            r == (AmplifierEmulatedState {
                frequency_hz: None,
                mode: None,
                ptt: false,
                auto_info_enabled: false,
            }),
    {
        AmplifierEmulatedState { frequency_hz: None, mode: None, ptt: false, auto_info_enabled: false }
    }
}

} // verus!
