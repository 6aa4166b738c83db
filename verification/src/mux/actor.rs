//! Multiplexer actor: the decisions
//!
//! The actor owns the multiplexer and the amplifier-facing state. Each
//! command it receives changes that state and yields the outputs to perform,
//! in order: events to emit, bytes for the amplifier, bytes for radios.
//! Channels, timers and awaiting are the caller's business.

use vstd::prelude::*;

use crate::command::{OperatingMode, RadioRequest, RadioResponse, RequestModel, ResponseModel, Vfo};
use crate::mux::amplifier::{AmplifierChannelMeta, AmplifierChannelMetaModel};
use crate::mux::channel::{RadioChannelMeta, RadioChannelMetaModel};
use crate::mux::engine::{
    active_after, find_radio, radios_after, rounds_frequency, forwarded, MuxModel, Multiplexer,
};
use crate::mux::error::MuxError;
use crate::mux::events::{MuxEvent, MuxEventModel};
use crate::mux::state::{fresh_radio, AmplifierConfig, RadioHandle, RadioState, SwitchingMode};
use crate::mux::translation::{encode_standalone, translate_response};
use crate::protocol::{codec_measure, codec_step, create_radio_codec, AnyCodecModel, AnyRadioCodec, Protocol, RadioCodec};

verus! {

/// Summary of a radio's state for sync purposes
#[derive(Debug, Clone, Copy)]
pub struct RadioStateSummary {
    /// Current frequency in Hz
    pub frequency_hz: Option<u64>,
    /// Current operating mode
    pub mode: Option<OperatingMode>,
    /// PTT active
    pub ptt: bool,
}

impl RadioStateSummary {
    /// Create from a RadioState
    pub fn from_state(state: &RadioState) -> (r: Self)
        ensures
            r.frequency_hz == state.frequency_hz,
            r.mode == state.mode,
            r.ptt == state.ptt,
    {
        RadioStateSummary { frequency_hz: state.frequency_hz, mode: state.mode, ptt: state.ptt }
    }
}

/// What the actor remembers for answering the amplifier: the last state
/// it told it, and the bands inferred from the active radio.
#[derive(Debug, Clone, Copy, PartialEq, Eq, Structural)]
pub struct AmpCache {
    /// Whether auto-info mode is enabled (the amplifier asked for updates)
    pub auto_info_enabled: bool,
    /// Frequency last known to the amplifier
    pub frequency_hz: Option<u64>,
    /// Mode last known to the amplifier
    pub mode: Option<OperatingMode>,
    /// PTT last known to the amplifier
    pub ptt: bool,
    /// Control band (0=Main/A, 1=Sub/B)
    pub control_band: Option<u8>,
    /// Transmit band (0=Main/A, 1=Sub/B)
    pub tx_band: Option<u8>,
    /// Receive VFO (0=A, 1=B), to infer bands from VFO reports
    pub rx_vfo: Option<u8>,
    /// Split state, to infer the transmit band
    pub split: bool,
}

/// The cache of a fresh amplifier connection.
pub open spec fn empty_cache() -> AmpCache {
    AmpCache {
        auto_info_enabled: false,
        frequency_hz: None,
        mode: None,
        ptt: false,
        control_band: None,
        tx_band: None,
        rx_vfo: None,
        split: false,
    }
}

fn new_cache() -> (r: AmpCache)
    ensures
        r == empty_cache(),
{
    AmpCache {
        auto_info_enabled: false,
        frequency_hz: None,
        mode: None,
        ptt: false,
        control_band: None,
        tx_band: None,
        rx_vfo: None,
        split: false,
    }
}

/// The receive VFO is unknown, A or B.
pub open spec fn cache_wf(c: AmpCache) -> bool {
    c.rx_vfo matches Some(v) ==> v <= 1
}

/// What a report from the active radio tells of the bands: control and
/// transmit band reports are taken as they are; selecting VFO A or B (or
/// memory, as A) puts receive, control and transmit there and ends split;
/// split transmits on the VFO opposite the receive one.
pub open spec fn bands_after(c: AmpCache, r: ResponseModel) -> AmpCache {
    match r {
        ResponseModel::ControlBand { band } => AmpCache { control_band: Some(band), ..c },
        ResponseModel::TransmitBand { band } => AmpCache { tx_band: Some(band), ..c },
        ResponseModel::Vfo { vfo } => match vfo {
            Vfo::A | Vfo::Memory => AmpCache {
                rx_vfo: Some(0),
                control_band: Some(0),
                split: false,
                tx_band: Some(0),
                ..c
            },
            Vfo::B => AmpCache { rx_vfo: Some(1), control_band: Some(1), split: false, tx_band: Some(1), ..c },
            Vfo::Split => {
                let rx: u8 = match c.rx_vfo {
                    Some(v) => v,
                    None => 0,
                };
                AmpCache { split: true, tx_band: Some((1 - rx) as u8), ..c }
            },
        },
        _ => c,
    }
}

/// How the actor answers an amplifier's query from its cache: frequency
/// and mode when known, PTT and auto-info always, always identifying as a
/// TS-990S (`022`), and the bands defaulting to main (0).
pub open spec fn amp_query_answer(c: AmpCache, q: RequestModel) -> Option<ResponseModel> {
    match q {
        RequestModel::GetFrequency => match c.frequency_hz {
            Some(hz) => Some(ResponseModel::Frequency { hz }),
            None => None,
        },
        RequestModel::GetMode => match c.mode {
            Some(mode) => Some(ResponseModel::Mode { mode }),
            None => None,
        },
        RequestModel::GetPtt => Some(ResponseModel::Ptt { active: c.ptt }),
        RequestModel::GetAutoInfo => Some(ResponseModel::AutoInfo { enabled: c.auto_info_enabled }),
        RequestModel::GetId => Some(ResponseModel::Id { id: seq!['0', '2', '2'] }),
        RequestModel::GetControlBand => Some(
            ResponseModel::ControlBand {
                band: match c.control_band {
                    Some(b) => b,
                    None => 0,
                },
            },
        ),
        RequestModel::GetTransmitBand => Some(
            ResponseModel::TransmitBand {
                band: match c.tx_band {
                    Some(b) => b,
                    None => 0,
                },
            },
        ),
        _ => None,
    }
}

/// Something the caller of the actor must do.
#[derive(Debug)]
pub enum ActorOutput {
    /// Emit an event
    Event(MuxEvent),
    /// Send bytes to the amplifier
    ToAmp(Vec<u8>),
    /// Send bytes to a radio
    ToRadio { handle: RadioHandle, data: Vec<u8> },
}

/// The mathematical value of an `ActorOutput`.
pub enum OutputModel {
    Event(MuxEventModel),
    ToAmp(Seq<u8>),
    ToRadio(RadioHandle, Seq<u8>),
}

impl View for ActorOutput {
    type V = OutputModel;

    open spec fn view(&self) -> OutputModel {
        match self {
            ActorOutput::Event(e) => OutputModel::Event(e@),
            ActorOutput::ToAmp(d) => OutputModel::ToAmp(d@),
            ActorOutput::ToRadio { handle, data } => OutputModel::ToRadio(*handle, data@),
        }
    }
}

pub open spec fn outputs_view(v: Seq<ActorOutput>) -> Seq<OutputModel> {
    Seq::new(v.len(), |i: int| v[i]@)
}

/// Sending a response to the amplifier: nothing without a connection or
/// when the amplifier's protocol cannot carry it; otherwise a traffic event
/// and the bytes.
pub open spec fn amp_send(connected: bool, protocol: Protocol, r: ResponseModel) -> Seq<OutputModel> {
    if !connected {
        Seq::empty()
    } else {
        match encode_standalone(protocol, r) {
            Some(d) => seq![
                OutputModel::Event(MuxEventModel::AmpDataOut { data: d, protocol }),
                OutputModel::ToAmp(d),
            ],
            None => Seq::empty(),
        }
    }
}

/// Frequency, mode and PTT of radio `h`, as far as known.
pub open spec fn radio_fmp(m: MuxModel, h: RadioHandle) -> (Option<u64>, Option<OperatingMode>, Option<bool>) {
    match find_radio(m.radios, h) {
        Some(i) => (m.radios[i].frequency_hz, m.radios[i].mode, Some(m.radios[i].ptt)),
        None => (None, None, None),
    }
}

/// The state-change event for a radio whose frequency, mode and PTT went
/// from `a` to `b`: each field that changed, when any did.
pub open spec fn state_change_output(
    h: RadioHandle,
    a: (Option<u64>, Option<OperatingMode>, Option<bool>),
    b: (Option<u64>, Option<OperatingMode>, Option<bool>),
) -> Seq<OutputModel> {
    if a.0 != b.0 || a.1 != b.1 || a.2 != b.2 {
        seq![
            OutputModel::Event(
                MuxEventModel::RadioStateChanged {
                    handle: h,
                    freq: if a.0 != b.0 {
                        b.0
                    } else {
                        None
                    },
                    mode: if a.1 != b.1 {
                        b.1
                    } else {
                        None
                    },
                    ptt: if a.2 != b.2 {
                        b.2
                    } else {
                        None
                    },
                },
            ),
        ]
    } else {
        Seq::empty()
    }
}

/// The event for a change of active radio.
pub open spec fn active_change_output(from: Option<RadioHandle>, to: Option<RadioHandle>) -> Seq<OutputModel> {
    if from != to && to is Some {
        seq![OutputModel::Event(MuxEventModel::ActiveRadioChanged { from, to: to->0 })]
    } else {
        Seq::empty()
    }
}

/// Forwarding what the multiplexer made for the amplifier: only in
/// auto-info mode, with a traffic event, and the bytes when connected.
pub open spec fn forward_output(c: AmpCache, connected: bool, protocol: Protocol, data: Option<Seq<u8>>) -> Seq<OutputModel> {
    match data {
        Some(d) => if c.auto_info_enabled {
            seq![OutputModel::Event(MuxEventModel::AmpDataOut { data: d, protocol })] + if connected {
                seq![OutputModel::ToAmp(d)]
            } else {
                Seq::empty()
            }
        } else {
            Seq::empty()
        },
        None => Seq::empty(),
    }
}

/// The cache after the multiplexer forwarded something: it takes over the
/// radio's known frequency, mode and PTT.
pub open spec fn cache_after_forward(c: AmpCache, data: Option<Seq<u8>>, b: (Option<u64>, Option<OperatingMode>, Option<bool>)) -> AmpCache {
    if data is Some {
        AmpCache {
            frequency_hz: if b.0 is Some {
                b.0
            } else {
                c.frequency_hz
            },
            mode: if b.1 is Some {
                b.1
            } else {
                c.mode
            },
            ptt: match b.2 {
                Some(p) => p,
                None => c.ptt,
            },
            ..c
        }
    } else {
        c
    }
}

/// The auto-info frequency update: a changed, known frequency the
/// amplifier does not have yet is cached and sent.
pub open spec fn update_frequency(c: AmpCache, go: bool, connected: bool, protocol: Protocol, a: Option<u64>, b: Option<u64>) -> (AmpCache, Seq<OutputModel>) {
    if go && a != b && b is Some && c.frequency_hz != b {
        (AmpCache { frequency_hz: b, ..c }, amp_send(connected, protocol, ResponseModel::Frequency { hz: b->0 }))
    } else {
        (c, Seq::empty())
    }
}

/// The auto-info mode update.
pub open spec fn update_mode(c: AmpCache, go: bool, connected: bool, protocol: Protocol, a: Option<OperatingMode>, b: Option<OperatingMode>) -> (AmpCache, Seq<OutputModel>) {
    if go && a != b && b is Some && c.mode != b {
        (AmpCache { mode: b, ..c }, amp_send(connected, protocol, ResponseModel::Mode { mode: b->0 }))
    } else {
        (c, Seq::empty())
    }
}

/// The auto-info PTT update.
pub open spec fn update_ptt(c: AmpCache, go: bool, connected: bool, protocol: Protocol, a: Option<bool>, b: Option<bool>) -> (AmpCache, Seq<OutputModel>) {
    if go && a != b && b is Some && c.ptt != b->0 {
        (AmpCache { ptt: b->0, ..c }, amp_send(connected, protocol, ResponseModel::Ptt { active: b->0 }))
    } else {
        (c, Seq::empty())
    }
}

/// Auto-info updates for the active radio, in the order frequency, mode,
/// PTT: each changed value the amplifier does not know yet is cached and
/// sent.
pub open spec fn auto_info_updates(
    c: AmpCache,
    go: bool,
    connected: bool,
    protocol: Protocol,
    a: (Option<u64>, Option<OperatingMode>, Option<bool>),
    b: (Option<u64>, Option<OperatingMode>, Option<bool>),
) -> (AmpCache, Seq<OutputModel>) {
    let (c1, o1) = update_frequency(c, go, connected, protocol, a.0, b.0);
    let (c2, o2) = update_mode(c1, go, connected, protocol, a.1, b.1);
    let (c3, o3) = update_ptt(c2, go, connected, protocol, a.2, b.2);
    (c3, o1 + o2 + o3)
}

/// Send a response to the amplifier, translated into its protocol.
fn send_to_amp(connected: bool, protocol: Protocol, response: RadioResponse, out: &mut Vec<ActorOutput>)
    ensures
        outputs_view(final(out)@) == outputs_view(old(out)@) + amp_send(connected, protocol, response@),
{
    let ghost o0 = out@;
    if !connected {
        proof {
            assert(outputs_view(out@) =~= outputs_view(o0) + Seq::<OutputModel>::empty());
        }
        return;
    }
    match translate_response(&response, protocol) {
        Ok(data) => {
            let copy = data.clone();
            proof {
                assert(copy@ =~= data@);
            }
            out.push(ActorOutput::Event(MuxEvent::AmpDataOut { data: copy, protocol }));
            out.push(ActorOutput::ToAmp(data));
            proof {
                assert(outputs_view(out@) =~= outputs_view(o0) + amp_send(connected, protocol, response@));
            }
        },
        Err(_) => {
            proof {
                assert(outputs_view(out@) =~= outputs_view(o0) + Seq::<OutputModel>::empty());
            }
        },
    }
}

fn step_frequency(c: &mut AmpCache, go: bool, connected: bool, protocol: Protocol, a: Option<u64>, b: Option<u64>, out: &mut Vec<ActorOutput>)
    ensures
        *final(c) == update_frequency(*old(c), go, connected, protocol, a, b).0,
        outputs_view(final(out)@) == outputs_view(old(out)@) + update_frequency(*old(c), go, connected, protocol, a, b).1,
{
    let ghost o0 = outputs_view(out@);
    if go && a != b {
        if let Some(hz) = b {
            if c.frequency_hz != Some(hz) {
                c.frequency_hz = Some(hz);
                send_to_amp(connected, protocol, RadioResponse::Frequency { hz }, out);
                return;
            }
        }
    }
    proof {
        assert(outputs_view(out@) =~= o0 + Seq::<OutputModel>::empty());
    }
}

fn step_mode(c: &mut AmpCache, go: bool, connected: bool, protocol: Protocol, a: Option<OperatingMode>, b: Option<OperatingMode>, out: &mut Vec<ActorOutput>)
    ensures
        *final(c) == update_mode(*old(c), go, connected, protocol, a, b).0,
        outputs_view(final(out)@) == outputs_view(old(out)@) + update_mode(*old(c), go, connected, protocol, a, b).1,
{
    let ghost o0 = outputs_view(out@);
    if go && a != b {
        if let Some(mode) = b {
            if c.mode != Some(mode) {
                c.mode = Some(mode);
                send_to_amp(connected, protocol, RadioResponse::Mode { mode }, out);
                return;
            }
        }
    }
    proof {
        assert(outputs_view(out@) =~= o0 + Seq::<OutputModel>::empty());
    }
}

fn step_ptt(c: &mut AmpCache, go: bool, connected: bool, protocol: Protocol, a: Option<bool>, b: Option<bool>, out: &mut Vec<ActorOutput>)
    ensures
        *final(c) == update_ptt(*old(c), go, connected, protocol, a, b).0,
        outputs_view(final(out)@) == outputs_view(old(out)@) + update_ptt(*old(c), go, connected, protocol, a, b).1,
{
    let ghost o0 = outputs_view(out@);
    if go && a != b {
        if let Some(ptt) = b {
            if c.ptt != ptt {
                c.ptt = ptt;
                send_to_amp(connected, protocol, RadioResponse::Ptt { active: ptt }, out);
                return;
            }
        }
    }
    proof {
        assert(outputs_view(out@) =~= o0 + Seq::<OutputModel>::empty());
    }
}

/// Infer the bands from a report of the active radio.
fn note_bands(c: &mut AmpCache, response: &RadioResponse)
    requires
        cache_wf(*old(c)),
    ensures
        *final(c) == bands_after(*old(c), response@),
        cache_wf(*final(c)),
{
    match response {
        RadioResponse::ControlBand { band } => {
            c.control_band = Some(*band);
        },
        RadioResponse::TransmitBand { band } => {
            c.tx_band = Some(*band);
        },
        RadioResponse::Vfo { vfo } => match vfo {
            Vfo::A | Vfo::Memory => {
                c.rx_vfo = Some(0);
                c.control_band = Some(0);
                c.split = false;
                c.tx_band = Some(0);
            },
            Vfo::B => {
                c.rx_vfo = Some(1);
                c.control_band = Some(1);
                c.split = false;
                c.tx_band = Some(1);
            },
            Vfo::Split => {
                c.split = true;
                let rx: u8 = match c.rx_vfo {
                    Some(v) => v,
                    None => 0,
                };
                c.tx_band = Some(1 - rx);
            },
        },
        _ => {},
    }
}

/// Internal state of the multiplexer actor
pub struct MuxActorState {
    /// The multiplexer engine
    multiplexer: Multiplexer,
    /// Registered radio channels, by handle
    radio_channels: Vec<(RadioHandle, RadioChannelMeta)>,
    /// Codecs for parsing each radio's raw data, by handle
    codecs: Vec<(RadioHandle, AnyRadioCodec)>,
    /// Radios with a command channel, with their protocol (Kenwood-family
    /// ones get the AI2 heartbeat)
    radio_cmd: Vec<(RadioHandle, Protocol)>,
    /// Whether an amplifier is connected
    amp_connected: bool,
    /// Amplifier metadata
    amp_meta: Option<AmplifierChannelMeta>,
    /// Codec for parsing amplifier data
    amp_codec: Option<AnyRadioCodec>,
    /// What the amplifier has been told and asked for
    cache: AmpCache,
}

/// The mathematical value of a `MuxActorState`.
pub struct ActorModel {
    pub mux: MuxModel,
    pub channels: Seq<(RadioHandle, RadioChannelMetaModel)>,
    pub codecs: Seq<(RadioHandle, AnyCodecModel)>,
    pub cmd_radios: Seq<(RadioHandle, Protocol)>,
    pub amp_connected: bool,
    pub amp_meta: Option<AmplifierChannelMetaModel>,
    pub amp_codec: Option<AnyCodecModel>,
    pub cache: AmpCache,
}

pub open spec fn channel_views(v: Seq<(RadioHandle, RadioChannelMeta)>) -> Seq<(RadioHandle, RadioChannelMetaModel)> {
    Seq::new(v.len(), |i: int| (v[i].0, v[i].1@))
}

pub open spec fn codec_views(v: Seq<(RadioHandle, AnyRadioCodec)>) -> Seq<(RadioHandle, AnyCodecModel)> {
    Seq::new(v.len(), |i: int| (v[i].0, v[i].1@))
}

impl View for MuxActorState {
    type V = ActorModel;

    closed spec fn view(&self) -> ActorModel {
        ActorModel {
            mux: self.multiplexer@,
            channels: channel_views(self.radio_channels@),
            codecs: codec_views(self.codecs@),
            cmd_radios: self.radio_cmd@,
            amp_connected: self.amp_connected,
            amp_meta: match self.amp_meta {
                Some(m) => Some(m@),
                None => None,
            },
            amp_codec: match self.amp_codec {
                Some(c) => Some(c@),
                None => None,
            },
            cache: self.cache,
        }
    }
}

/// Index of the first entry for handle `h`.
pub open spec fn entry_index<T>(v: Seq<(RadioHandle, T)>, h: RadioHandle) -> Option<int> {
    if exists|i: int| 0 <= i < v.len() && v[i].0 == h && forall|j: int| 0 <= j < i ==> v[j].0 != h {
        Some(choose|i: int| 0 <= i < v.len() && v[i].0 == h && forall|j: int| 0 <= j < i ==> v[j].0 != h)
    } else {
        None
    }
}

proof fn lemma_entry_index<T>(v: Seq<(RadioHandle, T)>, h: RadioHandle, k: int)
    requires
        0 <= k < v.len(),
        v[k].0 == h,
        forall|j: int| 0 <= j < k ==> v[j].0 != h,
    ensures
        entry_index(v, h) == Some(k),
{
    let w = choose|i: int| 0 <= i < v.len() && v[i].0 == h && forall|j: int| 0 <= j < i ==> v[j].0 != h;
    assert(0 <= k < v.len() && v[k].0 == h && forall|j: int| 0 <= j < k ==> v[j].0 != h);
    if w < k {
        assert(v[w].0 != h);
    } else if w > k {
        assert(v[k].0 != h);
    }
}

/// Registering radio `meta` as `h`: the multiplexer adds it (the first
/// radio becomes active), its channel, a fresh codec and (with a command
/// channel) its heartbeat entry are recorded, and `RadioConnected` follows.
pub open spec fn registered(
    s0: ActorModel,
    meta: RadioChannelMetaModel,
    has_command_channel: bool,
    now_ms: u64,
    h: RadioHandle,
    s1: ActorModel,
    out: Seq<OutputModel>,
) -> bool {
    &&& h == RadioHandle(s0.mux.next_handle)
    &&& s1.mux.radios == s0.mux.radios.push(
        fresh_radio(
            h,
            meta.display_name,
            match meta.port_name {
                Some(p) => p,
                None => "[VRT]"@,
            },
            meta.protocol,
            now_ms,
            false,
        ),
    )
    &&& s1.mux.active == (if s0.mux.active is None {
        Some(h)
    } else {
        s0.mux.active
    })
    &&& s1.mux.next_handle == s0.mux.next_handle + 1
    &&& s1.mux.config == s0.mux.config
    &&& s1.channels == s0.channels.push((h, meta))
    &&& s1.codecs == s0.codecs.push((h, crate::protocol::fresh_codec(meta.protocol)))
    &&& s1.cmd_radios == (if has_command_channel {
        s0.cmd_radios.push((h, meta.protocol))
    } else {
        s0.cmd_radios
    })
    &&& s1.cache == s0.cache
    &&& s1.amp_connected == s0.amp_connected
    &&& out == seq![OutputModel::Event(MuxEventModel::RadioConnected { handle: h, meta })]
}

/// Unregistering `handle`: a registered radio leaves the multiplexer with
/// its channel, codec and heartbeat entry, and `RadioDisconnected`
/// follows; an unknown handle changes nothing.
pub open spec fn unregistered(s0: ActorModel, handle: RadioHandle, s1: ActorModel, out: Seq<OutputModel>) -> bool {
    match entry_index(s0.channels, handle) {
        Some(i) => {
            &&& s1.channels == s0.channels.remove(i)
            &&& s1.codecs == (match entry_index(s0.codecs, handle) {
                Some(j) => s0.codecs.remove(j),
                None => s0.codecs,
            })
            &&& s1.cmd_radios == (match entry_index(s0.cmd_radios, handle) {
                Some(j) => s0.cmd_radios.remove(j),
                None => s0.cmd_radios,
            })
            &&& s1.mux.radios == (match find_radio(s0.mux.radios, handle) {
                Some(k) => s0.mux.radios.remove(k),
                None => s0.mux.radios,
            })
            &&& s1.cache == s0.cache
            &&& s1.amp_connected == s0.amp_connected
            &&& out == seq![OutputModel::Event(MuxEventModel::RadioDisconnected { handle })]
        },
        None => out.len() == 0 && s1 == s0,
    }
}

/// A response from radio `handle` at `now`: for a registered radio the
/// multiplexer takes it and the cache and outputs follow `response_plan`;
/// from an unknown radio it changes nothing.
pub open spec fn responded(
    s0: ActorModel,
    handle: RadioHandle,
    response: ResponseModel,
    now_ms: u64,
    s1: ActorModel,
    out: Seq<OutputModel>,
) -> bool {
    &&& entry_index(s0.channels, handle) is None ==> out.len() == 0 && s1 == s0
    &&& entry_index(s0.channels, handle) is Some ==> {
        &&& s1.mux.radios == radios_after(s0.mux, handle, response, now_ms)
        &&& s1.mux.active == active_after(s0.mux, handle, response, now_ms)
        &&& s1.cache == response_plan(s0, handle, response, now_ms).0
        &&& out == response_plan(s0, handle, response, now_ms).1
        &&& s1.channels == s0.channels
        &&& s1.codecs == s0.codecs
        &&& s1.amp_connected == s0.amp_connected
        &&& s1.mux.config == s0.mux.config
    }
}

/// Selecting `handle` at `now`: an unknown radio is an error event; during
/// lockout the switch is blocked; otherwise it becomes active, and a change
/// is announced and, in auto-info mode, its state is sent to the amplifier.
pub open spec fn activated(s0: ActorModel, handle: RadioHandle, now_ms: u64, s1: ActorModel, out: Seq<OutputModel>) -> bool {
    &&& s1.channels == s0.channels
    &&& s1.codecs == s0.codecs
    &&& s1.amp_connected == s0.amp_connected
    &&& s1.mux.radios == s0.mux.radios
    &&& find_radio(s0.mux.radios, handle) is None ==> {
        &&& s1.mux.active == s0.mux.active
        &&& s1.cache == s0.cache
        &&& out.len() == 1
        &&& out[0] matches OutputModel::Event(MuxEventModel::Error { source, .. }) && source == "Multiplexer"@
    }
    &&& find_radio(s0.mux.radios, handle) is Some && crate::mux::engine::locked_at(s0.mux, now_ms) ==> {
        &&& s1.mux.active == s0.mux.active
        &&& s1.cache == s0.cache
        &&& out == seq![
            OutputModel::Event(
                MuxEventModel::SwitchingBlocked {
                    requested: handle,
                    current: s0.mux.active->0,
                    remaining_ms: crate::mux::engine::lockout_left(s0.mux, now_ms),
                },
            ),
        ]
    }
    &&& find_radio(s0.mux.radios, handle) is Some && !crate::mux::engine::locked_at(s0.mux, now_ms) ==> {
        &&& s1.mux.active == Some(handle)
        &&& s0.mux.active == Some(handle) ==> out.len() == 0 && s1.cache == s0.cache
        &&& s0.mux.active != Some(handle) ==> out[0] == OutputModel::Event(
            MuxEventModel::ActiveRadioChanged { from: s0.mux.active, to: handle },
        )
        &&& s0.mux.active != Some(handle) && !(s0.cache.auto_info_enabled && s0.amp_connected) ==> out.len() == 1
            && s1.cache == s0.cache
        &&& s0.mux.active != Some(handle) && s0.cache.auto_info_enabled && s0.amp_connected ==> {
            let st = s0.mux.radios[find_radio(s0.mux.radios, handle)->0];
            let conn = s0.amp_connected;
            let prot = s0.mux.config.amplifier.protocol;
            let o1 = match st.frequency_hz {
                Some(hz) => amp_send(conn, prot, ResponseModel::Frequency { hz }),
                None => Seq::empty(),
            };
            let o2 = match st.mode {
                Some(m) => amp_send(conn, prot, ResponseModel::Mode { mode: m }),
                None => Seq::empty(),
            };
            &&& out == seq![
                OutputModel::Event(MuxEventModel::ActiveRadioChanged { from: s0.mux.active, to: handle }),
            ] + o1 + o2 + amp_send(conn, prot, ResponseModel::Ptt { active: st.ptt })
            &&& s1.cache == (AmpCache {
                frequency_hz: if st.frequency_hz is Some {
                    st.frequency_hz
                } else {
                    s0.cache.frequency_hz
                },
                mode: if st.mode is Some {
                    st.mode
                } else {
                    s0.cache.mode
                },
                ptt: st.ptt,
                ..s0.cache
            })
        }
    }
}

/// Renaming a radio: a new name reaches its state and its channel.
pub open spec fn renamed(s0: ActorModel, handle: RadioHandle, name: Option<Seq<char>>, s1: ActorModel) -> bool {
    &&& name is None ==> s1 == s0
    &&& name matches Some(n) ==> {
        &&& s1.mux.radios == (match find_radio(s0.mux.radios, handle) {
            Some(i) => s0.mux.radios.update(
                i,
                crate::mux::state::RadioStateModel { name: n, ..s0.mux.radios[i] },
            ),
            None => s0.mux.radios,
        })
        &&& s1.channels == (match entry_index(s0.channels, handle) {
            Some(i) => s0.channels.update(
                i,
                (handle, RadioChannelMetaModel { display_name: n, ..s0.channels[i].1 }),
            ),
            None => s0.channels,
        })
        &&& s1.mux.active == s0.mux.active
        &&& s1.codecs == s0.codecs
        &&& s1.cache == s0.cache
        &&& s1.amp_connected == s0.amp_connected
    }
}

/// The amplifier configuration set to the given values, the rest kept.
pub open spec fn amp_configured(
    s0: ActorModel,
    port: Seq<char>,
    protocol: Protocol,
    baud_rate: u32,
    civ_address: Option<u8>,
    s1: ActorModel,
) -> bool {
    &&& s1.mux.config.amplifier.port == port
    &&& s1.mux.config.amplifier.protocol == protocol
    &&& s1.mux.config.amplifier.baud_rate == baud_rate
    &&& s1.mux.config.amplifier.civ_address == civ_address
    &&& s1.mux.radios == s0.mux.radios
    &&& s1.mux.active == s0.mux.active
    &&& s1.channels == s0.channels
    &&& s1.codecs == s0.codecs
    &&& s1.cache == s0.cache
    &&& s1.amp_connected == s0.amp_connected
}

/// The switching mode set and announced, the rest kept.
pub open spec fn mode_switched(s0: ActorModel, mode: SwitchingMode, s1: ActorModel, out: Seq<OutputModel>) -> bool {
    &&& s1.mux.config.switching_mode == mode
    &&& s1.mux.radios == s0.mux.radios
    &&& s1.mux.active == s0.mux.active
    &&& s1.channels == s0.channels
    &&& s1.cache == s0.cache
    &&& out == seq![OutputModel::Event(MuxEventModel::SwitchingModeChanged { mode })]
}

/// The traffic event of bytes written to radio `handle`.
pub open spec fn data_out_event(s: ActorModel, handle: RadioHandle, data: Seq<u8>) -> Seq<OutputModel> {
    seq![
        OutputModel::Event(
            MuxEventModel::RadioDataOut {
                handle,
                data,
                protocol: match entry_index(s.channels, handle) {
                    Some(i) => s.channels[i].1.protocol,
                    None => Protocol::Kenwood,
                },
            },
        ),
    ]
}

/// The protocol a radio's traffic is labelled with: its channel's, or
/// Kenwood for an unknown radio.
pub open spec fn channel_protocol(s: ActorModel, handle: RadioHandle) -> Protocol {
    match entry_index(s.channels, handle) {
        Some(i) => s.channels[i].1.protocol,
        None => Protocol::Kenwood,
    }
}

/// A codec run: from `c`, each step hands out `items[k]` (moving from
/// `states[k]` to `states[k + 1]`), then a step hands out nothing and
/// leaves the codec in `last`.
pub open spec fn codec_run(
    c: AnyCodecModel,
    as_request: bool,
    items: Seq<(Result<RequestModel, ResponseModel>, Seq<u8>)>,
    states: Seq<AnyCodecModel>,
    last: AnyCodecModel,
) -> bool {
    &&& states.len() == items.len() + 1
    &&& states[0] == c
    &&& forall|k: int| 0 <= k < items.len() ==> codec_step(states[k], as_request, Some(#[trigger] items[k]), states[k + 1])
    &&& codec_step(states[items.len() as int], as_request, None, last)
}

/// The responses of a run as codec items.
pub open spec fn response_items(rs: Seq<(ResponseModel, Seq<u8>)>) -> Seq<(Result<RequestModel, ResponseModel>, Seq<u8>)> {
    Seq::new(rs.len(), |k: int| (Err(rs[k].0), rs[k].1))
}

/// The requests of a run as codec items.
pub open spec fn request_items(rs: Seq<(RequestModel, Seq<u8>)>) -> Seq<(Result<RequestModel, ResponseModel>, Seq<u8>)> {
    Seq::new(rs.len(), |k: int| (Ok(rs[k].0), rs[k].1))
}

/// Responses from radio `handle` processed in turn at `now`, through the
/// actor states `states`, each giving `outs[k]`.
pub open spec fn response_run(
    handle: RadioHandle,
    now_ms: u64,
    rs: Seq<(ResponseModel, Seq<u8>)>,
    states: Seq<ActorModel>,
    outs: Seq<Seq<OutputModel>>,
) -> bool {
    &&& states.len() == rs.len() + 1
    &&& outs.len() == rs.len()
    &&& forall|k: int| 0 <= k < rs.len() ==> responded(states[k], handle, rs[k].0, now_ms, states[k + 1], #[trigger] outs[k])
}

/// What each parsed response gives: its traffic event, then its outputs.
pub open spec fn radio_traffic(
    handle: RadioHandle,
    protocol: Protocol,
    rs: Seq<(ResponseModel, Seq<u8>)>,
    outs: Seq<Seq<OutputModel>>,
) -> Seq<Seq<OutputModel>> {
    Seq::new(
        rs.len(),
        |k: int| seq![OutputModel::Event(MuxEventModel::RadioDataIn { handle, data: rs[k].1, protocol })] + outs[k],
    )
}

/// Raw data from a radio with a codec (entry `i`): the codec takes the
/// bytes and hands out the responses `rs` (ending as `last`), which are
/// then processed in turn; each is reported as traffic before its outputs.
pub open spec fn radio_data_handled(
    s0: ActorModel,
    handle: RadioHandle,
    i: int,
    data: Seq<u8>,
    now_ms: u64,
    s1: ActorModel,
    out: Seq<OutputModel>,
    rs: Seq<(ResponseModel, Seq<u8>)>,
    cstates: Seq<AnyCodecModel>,
    last: AnyCodecModel,
    states: Seq<ActorModel>,
    outs: Seq<Seq<OutputModel>>,
) -> bool {
    &&& codec_run(crate::protocol::codec_after_push(s0.codecs[i].1, data), false, response_items(rs), cstates, last)
    &&& states[0] == (ActorModel { codecs: s0.codecs.update(i, (handle, last)), ..s0 })
    &&& response_run(handle, now_ms, rs, states, outs)
    &&& s1 == states.last()
    &&& out == radio_traffic(handle, channel_protocol(s0, handle), rs, outs).flatten()
}

/// Raw data from a radio with a codec (entry `i`) handled as
/// `radio_data_handled` describes, for some run of the codec.
pub open spec fn radio_data_done(
    s0: ActorModel,
    handle: RadioHandle,
    i: int,
    data: Seq<u8>,
    now_ms: u64,
    s1: ActorModel,
    out: Seq<OutputModel>,
) -> bool {
    exists|
        rs: Seq<(ResponseModel, Seq<u8>)>,
        cstates: Seq<AnyCodecModel>,
        last: AnyCodecModel,
        states: Seq<ActorModel>,
        outs: Seq<Seq<OutputModel>>,
    | #[trigger] radio_data_handled(s0, handle, i, data, now_ms, s1, out, rs, cstates, last, states, outs)
}

/// What a request from the amplifier does to the cache, and what it
/// sends: a query is answered from the cache when it can be; turning
/// auto-info on sends the cached frequency and mode; turning it off only
/// records that; anything else is ignored.
pub open spec fn amp_request_plan(c: AmpCache, conn: bool, prot: Protocol, req: RequestModel) -> (AmpCache, Seq<OutputModel>) {
    if crate::command::request_is_query(req) {
        (
            c,
            match amp_query_answer(c, req) {
                Some(a) => amp_send(conn, prot, a),
                None => Seq::empty(),
            },
        )
    } else {
        match req {
            RequestModel::SetAutoInfo { enabled } => (
                AmpCache { auto_info_enabled: enabled, ..c },
                if enabled {
                    (match c.frequency_hz {
                        Some(hz) => amp_send(conn, prot, ResponseModel::Frequency { hz }),
                        None => Seq::empty(),
                    }) + (match c.mode {
                        Some(m) => amp_send(conn, prot, ResponseModel::Mode { mode: m }),
                        None => Seq::empty(),
                    })
                } else {
                    Seq::empty()
                },
            ),
            _ => (c, Seq::empty()),
        }
    }
}

/// Requests from the amplifier handled in turn, each reported as traffic
/// first: the final cache and everything sent.
pub open spec fn amp_run(c: AmpCache, conn: bool, prot: Protocol, qs: Seq<(RequestModel, Seq<u8>)>) -> (AmpCache, Seq<OutputModel>)
    decreases qs.len(),
{
    if qs.len() == 0 {
        (c, Seq::empty())
    } else {
        let (c1, o1) = amp_run(c, conn, prot, qs.drop_last());
        let (c2, o2) = amp_request_plan(c1, conn, prot, qs.last().0);
        (c2, o1 + seq![OutputModel::Event(MuxEventModel::AmpDataIn { data: qs.last().1, protocol: prot })] + o2)
    }
}

/// The codec the amplifier's data is read with: the one in use, or a fresh
/// one for the amplifier's protocol.
pub open spec fn amp_codec_in_use(s: ActorModel) -> AnyCodecModel {
    match s.amp_codec {
        Some(c) => c,
        None => crate::protocol::fresh_codec(s.mux.config.amplifier.protocol),
    }
}

/// Raw data from the amplifier: the codec takes the bytes and hands out
/// the requests `qs` (ending as `last`), which are then handled in turn.
pub open spec fn amp_data_handled(
    s0: ActorModel,
    data: Seq<u8>,
    s1: ActorModel,
    out: Seq<OutputModel>,
    qs: Seq<(RequestModel, Seq<u8>)>,
    cstates: Seq<AnyCodecModel>,
    last: AnyCodecModel,
) -> bool {
    let run = amp_run(s0.cache, s0.amp_connected, s0.mux.config.amplifier.protocol, qs);
    &&& codec_run(crate::protocol::codec_after_push(amp_codec_in_use(s0), data), true, request_items(qs), cstates, last)
    &&& s1 == (ActorModel { amp_codec: Some(last), cache: run.0, ..s0 })
    &&& out == run.1
}

/// Raw data from the amplifier handled as `amp_data_handled` describes,
/// for some run of the codec.
pub open spec fn amp_data_done(s0: ActorModel, data: Seq<u8>, s1: ActorModel, out: Seq<OutputModel>) -> bool {
    exists|qs: Seq<(RequestModel, Seq<u8>)>, cstates: Seq<AnyCodecModel>, last: AnyCodecModel|
        #[trigger] amp_data_handled(s0, data, s1, out, qs, cstates, last)
}

/// The actor's invariant: the multiplexer's own, a usable frequency
/// precision, and a receive VFO that is A or B when known.
pub open spec fn actor_wf(s: ActorModel) -> bool {
    &&& crate::mux::engine::mux_wf(s.mux)
    &&& s.mux.config.translation.frequency_precision_hz > 0
    &&& cache_wf(s.cache)
}

/// The cache and outputs of handling a response from radio `h`, which the
/// multiplexer takes at `now`, following the steps of `process_radio_response_at`.
pub open spec fn response_plan(s: ActorModel, h: RadioHandle, r: ResponseModel, now_ms: u64) -> (AmpCache, Seq<OutputModel>) {
    let c1 = if s.mux.active == Some(h) {
        bands_after(s.cache, r)
    } else {
        s.cache
    };
    let a = radio_fmp(s.mux, h);
    let new_active = active_after(s.mux, h, r, now_ms);
    let m1 = MuxModel { radios: radios_after(s.mux, h, r, now_ms), ..s.mux };
    let b = radio_fmp(m1, h);
    let data = forwarded(s.mux, new_active, h, r);
    let protocol = s.mux.config.amplifier.protocol;
    let c2 = cache_after_forward(c1, data, b);
    let go = new_active == Some(h) && c2.auto_info_enabled && s.amp_connected;
    let (c3, updates) = auto_info_updates(c2, go, s.amp_connected, protocol, a, b);
    (
        c3,
        state_change_output(h, a, b) + active_change_output(s.mux.active, new_active) + forward_output(
            c1,
            s.amp_connected,
            protocol,
            data,
        ) + updates,
    )
}

/// Commands the multiplexer actor handles
pub enum ActorCommand {
    /// Register a new radio; `has_command_channel` when the radio task takes
    /// commands (for the AI2 heartbeat)
    RegisterRadio { meta: RadioChannelMeta, has_command_channel: bool },
    /// Unregister a radio from the multiplexer
    UnregisterRadio { handle: RadioHandle },
    /// Process a radio response (from radio data parsing)
    RadioResponse { handle: RadioHandle, response: RadioResponse },
    /// Raw data received from a radio
    RadioRawData { handle: RadioHandle, data: Vec<u8> },
    /// Raw data sent to a radio
    RadioRawDataOut { handle: RadioHandle, data: Vec<u8> },
    /// Raw data received from the amplifier
    AmpRawData { data: Vec<u8> },
    /// Set the active radio
    SetActiveRadio { handle: RadioHandle },
    /// Query the state of a specific radio
    QueryRadioState { handle: RadioHandle },
    /// Update a radio's metadata
    UpdateRadioMeta { handle: RadioHandle, name: Option<String> },
    /// Connect an amplifier
    ConnectAmplifier { meta: AmplifierChannelMeta },
    /// Disconnect the amplifier
    DisconnectAmplifier,
    /// Set the amplifier configuration
    SetAmplifierConfig { port: String, protocol: Protocol, baud_rate: u32, civ_address: Option<u8> },
    /// Set the switching mode
    SetSwitchingMode { mode: SwitchingMode },
    /// Report an error from an async task
    ReportError { source: String, message: String },
    /// The heartbeat timer fired
    Heartbeat,
    /// Shutdown the actor
    Shutdown,
}

/// What handling a command gives back to the actor's loop.
pub struct ActorReply {
    /// What to do, in order
    pub outputs: Vec<ActorOutput>,
    /// The handle given to a registered radio
    pub handle: Option<RadioHandle>,
    /// The state asked for by a query
    pub state: Option<RadioStateSummary>,
    /// The actor stops
    pub stop: bool,
}

/// The message of a failed manual selection, as the error displays it.
fn select_failed_text(e: &MuxError) -> (r: String)
    ensures
        r@ == match e {
            MuxError::RadioNotFound(m) => "Select failed: radio not found: "@ + m@,
            _ => "Select failed"@,
        },
{
    match e {
        MuxError::RadioNotFound(m) => "Select failed: radio not found: ".to_owned().concat(m.as_str()),
        _ => "Select failed".to_owned(),
    }
}

/// The heartbeat to the radios with a command channel: `AI2;` to each that
/// speaks Kenwood or Elecraft.
pub open spec fn heartbeat_outputs(v: Seq<(RadioHandle, Protocol)>) -> Seq<OutputModel>
    decreases v.len(),
{
    if v.len() == 0 {
        Seq::empty()
    } else {
        let (h, p) = v.last();
        heartbeat_outputs(v.drop_last()) + if p == Protocol::Kenwood || p == Protocol::Elecraft {
            seq![OutputModel::ToRadio(h, seq![65u8, 73u8, 50u8, 59u8])]
        } else {
            Seq::empty()
        }
    }
}

impl MuxActorState {
    /// The actor's invariant holds.
    pub open spec fn wf(&self) -> bool {
        actor_wf(self@)
    }

    /// A fresh actor: a default multiplexer, no radios, no amplifier.
    pub fn new() -> (r: Self)
        ensures
            r.wf(),
            r@.channels == Seq::<(RadioHandle, RadioChannelMetaModel)>::empty(),
            r@.codecs == Seq::<(RadioHandle, AnyCodecModel)>::empty(),
            r@.cmd_radios == Seq::<(RadioHandle, Protocol)>::empty(),
            !r@.amp_connected,
            r@.amp_meta is None,
            r@.amp_codec is None,
            r@.cache == empty_cache(),
            r@.mux.radios.len() == 0,
            r@.mux.active is None,
            r@.mux.lockout_until_ms is None,
            r@.mux.events.len() == 0,
            r@.mux.next_handle == 1,
            r@.mux.config.switching_mode == SwitchingMode::FrequencyTriggered,
            r@.mux.config.lockout_ms == 500,
            r@.mux.config.amplifier.protocol == Protocol::Kenwood,
            r@.mux.config.translation.frequency_precision_hz == 10,
    {
        let r = MuxActorState {
            multiplexer: Multiplexer::new(),
            radio_channels: Vec::new(),
            codecs: Vec::new(),
            radio_cmd: Vec::new(),
            amp_connected: false,
            amp_meta: None,
            amp_codec: None,
            cache: new_cache(),
        };
        proof {
            assert(r@.channels =~= Seq::<(RadioHandle, RadioChannelMetaModel)>::empty());
            assert(r@.codecs =~= Seq::<(RadioHandle, AnyCodecModel)>::empty());
        }
        r
    }

    /// The multiplexer the actor drives.
    pub fn multiplexer(&self) -> (r: &Multiplexer)
        ensures
            r@ == self@.mux,
    {
        &self.multiplexer
    }

    /// The amplifier-facing cache.
    pub fn cache(&self) -> (r: AmpCache)
        ensures
            r == self@.cache,
    {
        self.cache
    }

    /// Position of the metadata for `handle`.
    fn channel_index(&self, handle: RadioHandle) -> (r: Option<usize>)
        ensures
            r matches Some(i) ==> entry_index(self@.channels, handle) == Some(i as int) && i < self@.channels.len(),
            r is None ==> entry_index(self@.channels, handle) is None,
    {
        let mut i: usize = 0;
        while i < self.radio_channels.len()
            invariant
                i <= self.radio_channels@.len(),
                self@.channels.len() == self.radio_channels@.len(),
                forall|j: int| 0 <= j < i ==> self@.channels[j].0 != handle,
            decreases self.radio_channels.len() - i,
        {
            if self.radio_channels[i].0 == handle {
                proof {
                    assert(self@.channels[i as int].0 == handle);
                    lemma_entry_index(self@.channels, handle, i as int);
                }
                return Some(i);
            }
            proof {
                assert(self@.channels[i as int].0 == self.radio_channels@[i as int].0);
            }
            i = i + 1;
        }
        None
    }

    /// Position of the codec for `handle`.
    fn codec_index(&self, handle: RadioHandle) -> (r: Option<usize>)
        ensures
            r matches Some(i) ==> entry_index(self@.codecs, handle) == Some(i as int) && i < self@.codecs.len(),
            r is None ==> entry_index(self@.codecs, handle) is None,
    {
        let mut i: usize = 0;
        while i < self.codecs.len()
            invariant
                i <= self.codecs@.len(),
                self@.codecs.len() == self.codecs@.len(),
                forall|j: int| 0 <= j < i ==> self@.codecs[j].0 != handle,
            decreases self.codecs.len() - i,
        {
            if self.codecs[i].0 == handle {
                proof {
                    assert(self@.codecs[i as int].0 == handle);
                    lemma_entry_index(self@.codecs, handle, i as int);
                }
                return Some(i);
            }
            proof {
                assert(self@.codecs[i as int].0 == self.codecs@[i as int].0);
            }
            i = i + 1;
        }
        None
    }

    /// Answer a query from the amplifier from the cache, when possible.
    pub fn handle_amp_query(&self, query: &RadioRequest) -> (r: Option<RadioResponse>)
        ensures
            crate::protocol::response_of(r) == amp_query_answer(self@.cache, query@),
    {
        match query {
            RadioRequest::GetFrequency => match self.cache.frequency_hz {
                Some(hz) => Some(RadioResponse::Frequency { hz }),
                None => None,
            },
            RadioRequest::GetMode => match self.cache.mode {
                Some(mode) => Some(RadioResponse::Mode { mode }),
                None => None,
            },
            RadioRequest::GetPtt => Some(RadioResponse::Ptt { active: self.cache.ptt }),
            RadioRequest::GetAutoInfo => Some(RadioResponse::AutoInfo { enabled: self.cache.auto_info_enabled }),
            RadioRequest::GetId => {
                let id = "022".to_owned();
                proof {
                    reveal_strlit("022");
                    assert(id@ =~= seq!['0', '2', '2']);
                }
                Some(RadioResponse::Id { id })
            },
            RadioRequest::GetControlBand => Some(
                RadioResponse::ControlBand {
                    band: match self.cache.control_band {
                        Some(b) => b,
                        None => 0,
                    },
                },
            ),
            RadioRequest::GetTransmitBand => Some(
                RadioResponse::TransmitBand {
                    band: match self.cache.tx_band {
                        Some(b) => b,
                        None => 0,
                    },
                },
            ),
            _ => None,
        }
    }

    /// Frequency, mode and PTT of a radio, as far as known.
    fn radio_fmp_of(&self, handle: RadioHandle) -> (r: (Option<u64>, Option<OperatingMode>, Option<bool>))
        requires
            self.wf(),
        ensures
            r == radio_fmp(self@.mux, handle),
    {
        match self.multiplexer.get_radio(handle) {
            Some(st) => (st.frequency_hz, st.mode, Some(st.ptt)),
            None => (None, None, None),
        }
    }

    /// The multiplexer's part of handling a response: bands are inferred
    /// from the active radio's reports, then the multiplexer takes it.
    /// Returns the radio's frequency, mode and PTT before and after, the
    /// active radio before and after, and what goes to the amplifier.
    fn run_multiplexer(&mut self, handle: RadioHandle, response: RadioResponse, now_ms: u64) -> (r: (
        (Option<u64>, Option<OperatingMode>, Option<bool>),
        (Option<u64>, Option<OperatingMode>, Option<bool>),
        Option<RadioHandle>,
        Option<RadioHandle>,
        Option<Vec<u8>>,
    ))
        requires
            old(self).wf(),
        ensures
            final(self).wf(),
            ({
                let s0 = old(self)@;
                let resp = response@;
                let m1 = MuxModel { radios: radios_after(s0.mux, handle, resp, now_ms), ..s0.mux };
                &&& r.0 == radio_fmp(s0.mux, handle)
                &&& r.1 == radio_fmp(m1, handle)
                &&& r.2 == s0.mux.active
                &&& r.3 == active_after(s0.mux, handle, resp, now_ms)
                &&& final(self)@.mux.radios == m1.radios
                &&& final(self)@.mux.active == r.3
                &&& final(self)@.mux.config == s0.mux.config
                &&& (match r.4 {
                    Some(v) => Some(v@),
                    None => None::<Seq<u8>>,
                }) == forwarded(s0.mux, r.3, handle, resp)
                &&& final(self).cache == (if s0.mux.active == Some(handle) {
                    bands_after(s0.cache, resp)
                } else {
                    s0.cache
                })
            }),
            final(self).radio_channels == old(self).radio_channels,
            final(self).codecs == old(self).codecs,
            final(self).radio_cmd == old(self).radio_cmd,
            final(self).amp_connected == old(self).amp_connected,
            final(self).amp_meta == old(self).amp_meta,
            final(self).amp_codec == old(self).amp_codec,
    {
        let ghost s0 = self@;
        let ghost resp = response@;
        if self.multiplexer.active_radio() == Some(handle) {
            note_bands(&mut self.cache, &response);
        }
        let a = self.radio_fmp_of(handle);
        let old_active = self.multiplexer.active_radio();
        let amp_data = self.multiplexer.process_radio_command_at(handle, response, now_ms);
        let b = self.radio_fmp_of(handle);
        let new_active = self.multiplexer.active_radio();
        proof {
            let m1 = MuxModel { radios: radios_after(s0.mux, handle, resp, now_ms), ..s0.mux };
            assert(find_radio(m1.radios, handle) == find_radio(self@.mux.radios, handle));
        }
        (a, b, old_active, new_active, amp_data)
    }

    /// Forward what the multiplexer made for the amplifier, and take the
    /// radio's state into the cache.
    fn forward_to_amp(
        &mut self,
        amp_data: Option<Vec<u8>>,
        b: (Option<u64>, Option<OperatingMode>, Option<bool>),
        out: &mut Vec<ActorOutput>,
    )
        ensures
            ({
                let d = match amp_data {
                    Some(v) => Some(v@),
                    None => None::<Seq<u8>>,
                };
                &&& outputs_view(final(out)@) == outputs_view(old(out)@) + forward_output(
                    old(self).cache,
                    old(self).amp_connected,
                    old(self).multiplexer@.config.amplifier.protocol,
                    d,
                )
                &&& final(self).cache == cache_after_forward(old(self).cache, d, b)
            }),
            final(self).multiplexer == old(self).multiplexer,
            final(self).radio_channels == old(self).radio_channels,
            final(self).codecs == old(self).codecs,
            final(self).radio_cmd == old(self).radio_cmd,
            final(self).amp_connected == old(self).amp_connected,
            final(self).amp_meta == old(self).amp_meta,
            final(self).amp_codec == old(self).amp_codec,
    {
        let ghost o0 = outputs_view(out@);
        let ghost d = match &amp_data {
            Some(v) => Some(v@),
            None => None::<Seq<u8>>,
        };
        if let Some(data) = amp_data {
            if self.cache.auto_info_enabled {
                let amp_protocol = self.multiplexer.amplifier_config().protocol;
                let copy = data.clone();
                proof {
                    assert(copy@ =~= data@);
                }
                out.push(ActorOutput::Event(MuxEvent::AmpDataOut { data: copy, protocol: amp_protocol }));
                if self.amp_connected {
                    out.push(ActorOutput::ToAmp(data));
                }
            }
            if let Some(hz) = b.0 {
                self.cache.frequency_hz = Some(hz);
            }
            if let Some(mode) = b.1 {
                self.cache.mode = Some(mode);
            }
            if let Some(ptt) = b.2 {
                self.cache.ptt = ptt;
            }
        }
        proof {
            assert(outputs_view(out@) =~= o0 + forward_output(
                old(self).cache,
                old(self).amp_connected,
                old(self).multiplexer@.config.amplifier.protocol,
                d,
            ));
        }
    }

    /// Auto-info updates to the amplifier after the active radio changed.
    fn send_auto_info(
        &mut self,
        go: bool,
        a: (Option<u64>, Option<OperatingMode>, Option<bool>),
        b: (Option<u64>, Option<OperatingMode>, Option<bool>),
        out: &mut Vec<ActorOutput>,
    )
        ensures
            ({
                let (c3, ups) = auto_info_updates(
                    old(self).cache,
                    go,
                    old(self).amp_connected,
                    old(self).multiplexer@.config.amplifier.protocol,
                    a,
                    b,
                );
                &&& final(self).cache == c3
                &&& outputs_view(final(out)@) == outputs_view(old(out)@) + ups
            }),
            final(self).multiplexer == old(self).multiplexer,
            final(self).radio_channels == old(self).radio_channels,
            final(self).codecs == old(self).codecs,
            final(self).radio_cmd == old(self).radio_cmd,
            final(self).amp_connected == old(self).amp_connected,
            final(self).amp_meta == old(self).amp_meta,
            final(self).amp_codec == old(self).amp_codec,
    {
        let ghost o0 = outputs_view(out@);
        let protocol = self.multiplexer.amplifier_config().protocol;
        let connected = self.amp_connected;
        step_frequency(&mut self.cache, go, connected, protocol, a.0, b.0, out);
        step_mode(&mut self.cache, go, connected, protocol, a.1, b.1, out);
        step_ptt(&mut self.cache, go, connected, protocol, a.2, b.2, out);
        proof {
            let (c3, ups) = auto_info_updates(old(self).cache, go, connected, protocol, a, b);
            assert(outputs_view(out@) =~= o0 + ups);
        }
    }

    /// Process a radio's response through the multiplexer at `now`:
    /// bands are inferred from the active radio's reports, the multiplexer
    /// updates and may switch, a state-change and an active-radio event are
    /// emitted when something changed, what the multiplexer forwards goes to
    /// the amplifier in auto-info mode, and the amplifier hears of the
    /// active radio's changes. A radio that is not registered is ignored.
    pub fn process_radio_response_at(&mut self, handle: RadioHandle, response: RadioResponse, now_ms: u64) -> (r:
        Vec<ActorOutput>)
        requires
            old(self).wf(),
        ensures
            final(self).wf(),
            responded(old(self)@, handle, response@, now_ms, final(self)@, outputs_view(r@)),
    {
        let mut out: Vec<ActorOutput> = Vec::new();
        if self.channel_index(handle).is_none() {
            return out;
        }
        let ghost s0 = self@;
        let ghost resp = response@;
        let (a, b, old_active, new_active, amp_data) = self.run_multiplexer(handle, response, now_ms);
        let freq_changed = a.0 != b.0;
        let mode_changed = a.1 != b.1;
        let ptt_changed = a.2 != b.2;
        if freq_changed || mode_changed || ptt_changed {
            out.push(
                ActorOutput::Event(
                    MuxEvent::RadioStateChanged {
                        handle,
                        freq: if freq_changed {
                            b.0
                        } else {
                            None
                        },
                        mode: if mode_changed {
                            b.1
                        } else {
                            None
                        },
                        ptt: if ptt_changed {
                            b.2
                        } else {
                            None
                        },
                    },
                ),
            );
        }
        if old_active != new_active {
            if let Some(to) = new_active {
                out.push(ActorOutput::Event(MuxEvent::ActiveRadioChanged { from: old_active, to }));
            }
        }
        proof {
            assert(outputs_view(out@) =~= state_change_output(handle, a, b) + active_change_output(
                s0.mux.active,
                new_active,
            ));
        }
        let is_active = new_active == Some(handle);
        self.forward_to_amp(amp_data, b, &mut out);
        let go = is_active && self.cache.auto_info_enabled && self.amp_connected;
        self.send_auto_info(go, a, b, &mut out);
        proof {
            assert(self@.channels =~= s0.channels);
            assert(self@.codecs =~= s0.codecs);
        }
        out
    }

    /// Register a radio: it joins the multiplexer and gets a codec for its
    /// protocol; `has_command_channel` says whether it takes the heartbeat.
    /// Returns its handle and a `RadioConnected` event.
    pub fn register_radio(&mut self, meta: RadioChannelMeta, has_command_channel: bool, now_ms: u64) -> (r: (
        RadioHandle,
        Vec<ActorOutput>,
    ))
        requires
            old(self).wf(),
            old(self)@.mux.next_handle < u32::MAX,
        ensures
            final(self).wf(),
            registered(old(self)@, meta@, has_command_channel, now_ms, r.0, final(self)@, outputs_view(r.1@)),
    {
        let name = meta.display_name.clone();
        let port = match &meta.port_name {
            Some(p) => p.clone(),
            None => "[VRT]".to_owned(),
        };
        let protocol = meta.protocol;
        let handle = self.multiplexer.add_radio_at(name, port, protocol, now_ms);
        let copy = meta.duplicate();
        self.radio_channels.push((handle, copy));
        self.codecs.push((handle, create_radio_codec(protocol)));
        if has_command_channel {
            self.radio_cmd.push((handle, protocol));
        }
        let mut out: Vec<ActorOutput> = Vec::new();
        out.push(ActorOutput::Event(MuxEvent::RadioConnected { handle, meta }));
        proof {
            assert(self@.channels =~= old(self)@.channels.push((handle, meta@)));
            assert(self@.codecs =~= old(self)@.codecs.push((handle, crate::protocol::fresh_codec(meta@.protocol))));
            assert(outputs_view(out@) =~= seq![
                OutputModel::Event(MuxEventModel::RadioConnected { handle, meta: meta@ }),
            ]);
        }
        (handle, out)
    }

    /// Position of the command-channel entry for `handle`.
    fn cmd_index(&self, handle: RadioHandle) -> (r: Option<usize>)
        ensures
            r matches Some(i) ==> entry_index(self@.cmd_radios, handle) == Some(i as int) && i < self@.cmd_radios.len(),
            r is None ==> entry_index(self@.cmd_radios, handle) is None,
    {
        let mut i: usize = 0;
        while i < self.radio_cmd.len()
            invariant
                i <= self.radio_cmd@.len(),
                self@.cmd_radios == self.radio_cmd@,
                forall|j: int| 0 <= j < i ==> self@.cmd_radios[j].0 != handle,
            decreases self.radio_cmd.len() - i,
        {
            if self.radio_cmd[i].0 == handle {
                proof {
                    lemma_entry_index(self@.cmd_radios, handle, i as int);
                }
                return Some(i);
            }
            i = i + 1;
        }
        None
    }

    /// Unregister a radio: it leaves the multiplexer, its codec and
    /// command channel are dropped, and a `RadioDisconnected` event follows.
    /// An unknown handle changes nothing.
    pub fn unregister_radio(&mut self, handle: RadioHandle) -> (r: Vec<ActorOutput>)
        requires
            old(self).wf(),
        ensures
            final(self).wf(),
            unregistered(old(self)@, handle, final(self)@, outputs_view(r@)),
    {
        let mut out: Vec<ActorOutput> = Vec::new();
        let i = match self.channel_index(handle) {
            Some(i) => i,
            None => {
                return out;
            },
        };
        let ghost s0 = self@;
        let _ = self.radio_channels.remove(i);
        let _ = self.multiplexer.remove_radio(handle);
        if let Some(j) = self.codec_index(handle) {
            let _ = self.codecs.remove(j);
            proof {
                assert(self@.codecs =~= s0.codecs.remove(j as int));
            }
        }
        if let Some(j) = self.cmd_index(handle) {
            let _ = self.radio_cmd.remove(j);
        }
        out.push(ActorOutput::Event(MuxEvent::RadioDisconnected { handle }));
        proof {
            assert(self@.channels =~= s0.channels.remove(i as int));
            assert(outputs_view(out@) =~= seq![OutputModel::Event(MuxEventModel::RadioDisconnected { handle })]);
        }
        out
    }

    /// Bring the amplifier up to date with a radio that just became active
    /// (in auto-info mode with an amplifier): its frequency and mode when
    /// known, and its PTT.
    fn announce_radio(&mut self, st_freq: Option<u64>, st_mode: Option<OperatingMode>, st_ptt: bool, out: &mut Vec<ActorOutput>)
        ensures
            ({
                let conn = old(self).amp_connected;
                let prot = old(self).multiplexer@.config.amplifier.protocol;
                let o1 = match st_freq {
                    Some(hz) => amp_send(conn, prot, ResponseModel::Frequency { hz }),
                    None => Seq::empty(),
                };
                let o2 = match st_mode {
                    Some(m) => amp_send(conn, prot, ResponseModel::Mode { mode: m }),
                    None => Seq::empty(),
                };
                &&& outputs_view(final(out)@) == outputs_view(old(out)@) + o1 + o2 + amp_send(
                    conn,
                    prot,
                    ResponseModel::Ptt { active: st_ptt },
                )
                &&& final(self).cache == (AmpCache {
                    frequency_hz: if st_freq is Some {
                        st_freq
                    } else {
                        old(self).cache.frequency_hz
                    },
                    mode: if st_mode is Some {
                        st_mode
                    } else {
                        old(self).cache.mode
                    },
                    ptt: st_ptt,
                    ..old(self).cache
                })
            }),
            final(self).multiplexer == old(self).multiplexer,
            final(self).radio_channels == old(self).radio_channels,
            final(self).codecs == old(self).codecs,
            final(self).radio_cmd == old(self).radio_cmd,
            final(self).amp_connected == old(self).amp_connected,
            final(self).amp_meta == old(self).amp_meta,
            final(self).amp_codec == old(self).amp_codec,
    {
        let ghost o0 = outputs_view(out@);
        let protocol = self.multiplexer.amplifier_config().protocol;
        let connected = self.amp_connected;
        if let Some(hz) = st_freq {
            self.cache.frequency_hz = Some(hz);
            send_to_amp(connected, protocol, RadioResponse::Frequency { hz }, out);
        }
        let ghost o1 = outputs_view(out@);
        if let Some(mode) = st_mode {
            self.cache.mode = Some(mode);
            send_to_amp(connected, protocol, RadioResponse::Mode { mode }, out);
        }
        let ghost o2 = outputs_view(out@);
        self.cache.ptt = st_ptt;
        send_to_amp(connected, protocol, RadioResponse::Ptt { active: st_ptt }, out);
        proof {
            let a1 = match st_freq {
                Some(hz) => amp_send(connected, protocol, ResponseModel::Frequency { hz }),
                None => Seq::empty(),
            };
            let a2 = match st_mode {
                Some(m) => amp_send(connected, protocol, ResponseModel::Mode { mode: m }),
                None => Seq::empty(),
            };
            assert(o1 =~= o0 + a1);
            assert(o2 =~= o0 + a1 + a2);
        }
    }

    /// Make `handle` the active radio by hand at `now`. A switch is
    /// announced with an `ActiveRadioChanged` event and, in auto-info mode
    /// with an amplifier, the new radio's state is sent to the amplifier; a
    /// switch refused for the lockout yields `SwitchingBlocked`; an unknown
    /// radio yields an error event.
    pub fn set_active_radio_at(&mut self, handle: RadioHandle, now_ms: u64) -> (r: Vec<ActorOutput>)
        requires
            old(self).wf(),
        ensures
            final(self).wf(),
            activated(old(self)@, handle, now_ms, final(self)@, outputs_view(r@)),
    {
        let ghost s0 = self@;
        let mut out: Vec<ActorOutput> = Vec::new();
        let old_active = self.multiplexer.active_radio();
        match self.multiplexer.select_radio_at(handle, now_ms) {
            Ok(()) => {
                if old_active != Some(handle) {
                    out.push(ActorOutput::Event(MuxEvent::ActiveRadioChanged { from: old_active, to: handle }));
                    proof {
                        assert(outputs_view(out@) =~= seq![
                            OutputModel::Event(MuxEventModel::ActiveRadioChanged { from: old_active, to: handle }),
                        ]);
                    }
                    if self.cache.auto_info_enabled && self.amp_connected {
                        let found = match self.multiplexer.get_radio(handle) {
                            Some(st) => Some((st.frequency_hz, st.mode, st.ptt)),
                            None => None,
                        };
                        if let Some((f, m, p)) = found {
                            self.announce_radio(f, m, p, &mut out);
                        }
                    }
                }
            },
            Err(MuxError::SwitchingLocked { requested, current, remaining_ms }) => {
                out.push(ActorOutput::Event(MuxEvent::SwitchingBlocked { requested, current, remaining_ms }));
                proof {
                    assert(outputs_view(out@) =~= seq![
                        OutputModel::Event(MuxEventModel::SwitchingBlocked { requested, current, remaining_ms }),
                    ]);
                }
            },
            Err(e) => {
                let message = select_failed_text(&e);
                let source = "Multiplexer".to_owned();
                out.push(ActorOutput::Event(MuxEvent::Error { source, message }));
            },
        }
        proof {
            assert(self@.channels =~= s0.channels);
            assert(self@.codecs =~= s0.codecs);
        }
        out
    }

    /// The state of a radio, if the multiplexer knows it.
    pub fn query_radio_state(&self, handle: RadioHandle) -> (r: Option<RadioStateSummary>)
        requires
            self.wf(),
        ensures
            match find_radio(self@.mux.radios, handle) {
                Some(i) => r matches Some(s) && s.frequency_hz == self@.mux.radios[i].frequency_hz && s.mode
                    == self@.mux.radios[i].mode && s.ptt == self@.mux.radios[i].ptt,
                None => r is None,
            },
    {
        match self.multiplexer.get_radio(handle) {
            Some(st) => Some(RadioStateSummary::from_state(st)),
            None => None,
        }
    }

    /// Rename a radio, in the multiplexer and in its metadata.
    pub fn update_radio_meta(&mut self, handle: RadioHandle, name: Option<String>)
        requires
            old(self).wf(),
        ensures
            final(self).wf(),
            renamed(
                old(self)@,
                handle,
                match name {
                    Some(n) => Some(n@),
                    None => None,
                },
                final(self)@,
            ),
    {
        let ghost s0 = self@;
        if let Some(new_name) = name {
            self.multiplexer.rename_radio(handle, new_name.clone());
            if let Some(i) = self.channel_index(handle) {
                let (h, mut meta) = self.radio_channels.remove(i);
                meta.set_display_name(new_name);
                self.radio_channels.insert(i, (h, meta));
                proof {
                    assert(self@.channels =~= s0.channels.update(
                        i as int,
                        (handle, RadioChannelMetaModel { display_name: new_name@, ..s0.channels[i as int].1 }),
                    ));
                }
            }
            proof {
                assert(self@.codecs =~= s0.codecs);
            }
        }
    }

    /// Connect an amplifier: its codec and the cache start afresh.
    pub fn connect_amplifier(&mut self, meta: AmplifierChannelMeta) -> (r: Vec<ActorOutput>)
        requires
            old(self).wf(),
        ensures
            final(self).wf(),
            final(self)@ == (ActorModel {
                amp_connected: true,
                amp_meta: Some(meta@),
                amp_codec: None,
                cache: empty_cache(),
                ..old(self)@
            }),
            outputs_view(r@) == seq![OutputModel::Event(MuxEventModel::AmpConnected { meta: meta@ })],
    {
        self.amp_connected = true;
        self.amp_meta = Some(meta.duplicate());
        self.amp_codec = None;
        self.cache = new_cache();
        let mut out: Vec<ActorOutput> = Vec::new();
        out.push(ActorOutput::Event(MuxEvent::AmpConnected { meta }));
        proof {
            assert(outputs_view(out@) =~= seq![OutputModel::Event(MuxEventModel::AmpConnected { meta: meta@ })]);
        }
        out
    }

    /// Disconnect the amplifier: its codec and the cache are dropped.
    pub fn disconnect_amplifier(&mut self) -> (r: Vec<ActorOutput>)
        requires
            old(self).wf(),
        ensures
            final(self).wf(),
            final(self)@ == (ActorModel {
                amp_connected: false,
                amp_meta: None,
                amp_codec: None,
                cache: empty_cache(),
                ..old(self)@
            }),
            outputs_view(r@) == seq![OutputModel::Event(MuxEventModel::AmpDisconnected)],
    {
        self.amp_connected = false;
        self.amp_meta = None;
        self.amp_codec = None;
        self.cache = new_cache();
        let mut out: Vec<ActorOutput> = Vec::new();
        out.push(ActorOutput::Event(MuxEvent::AmpDisconnected));
        proof {
            assert(outputs_view(out@) =~= seq![OutputModel::Event(MuxEventModel::AmpDisconnected)]);
        }
        out
    }

    /// Set the amplifier configuration.
    pub fn set_amplifier_config(&mut self, port: String, protocol: Protocol, baud_rate: u32, civ_address: Option<u8>)
        requires
            old(self).wf(),
        ensures
            final(self).wf(),
            amp_configured(old(self)@, port@, protocol, baud_rate, civ_address, final(self)@),
    {
        let ghost s0 = self@;
        self.multiplexer.set_amplifier_config(AmplifierConfig { port, protocol, baud_rate, civ_address });
        proof {
            assert(self@.channels =~= s0.channels);
            assert(self@.codecs =~= s0.codecs);
        }
    }

    /// Set the switching mode, announced with an event.
    pub fn set_switching_mode(&mut self, mode: SwitchingMode) -> (r: Vec<ActorOutput>)
        requires
            old(self).wf(),
        ensures
            final(self).wf(),
            mode_switched(old(self)@, mode, final(self)@, outputs_view(r@)),
    {
        let ghost s0 = self@;
        self.multiplexer.set_switching_mode(mode);
        let mut out: Vec<ActorOutput> = Vec::new();
        out.push(ActorOutput::Event(MuxEvent::SwitchingModeChanged { mode }));
        proof {
            assert(self@.channels =~= s0.channels);
            assert(outputs_view(out@) =~= seq![OutputModel::Event(MuxEventModel::SwitchingModeChanged { mode })]);
        }
        out
    }

    /// The protocol a radio speaks, Kenwood when it is unknown.
    fn radio_protocol(&self, handle: RadioHandle) -> (r: Protocol)
        ensures
            r == (match entry_index(self@.channels, handle) {
                Some(i) => self@.channels[i].1.protocol,
                None => Protocol::Kenwood,
            }),
    {
        match self.channel_index(handle) {
            Some(i) => {
                proof {
                    assert(self@.channels[i as int].1 == self.radio_channels@[i as int].1@);
                }
                self.radio_channels[i].1.protocol
            },
            None => Protocol::Kenwood,
        }
    }

    /// Raw data sent to a radio, reported as traffic.
    pub fn radio_raw_data_out(&self, handle: RadioHandle, data: Vec<u8>) -> (r: Vec<ActorOutput>)
        ensures
            outputs_view(r@) == data_out_event(self@, handle, data@),
    {
        let protocol = self.radio_protocol(handle);
        let mut out: Vec<ActorOutput> = Vec::new();
        let ghost d = data@;
        out.push(ActorOutput::Event(MuxEvent::RadioDataOut { handle, data, protocol }));
        proof {
            assert(outputs_view(out@) =~= seq![
                OutputModel::Event(MuxEventModel::RadioDataOut { handle, data: d, protocol }),
            ]);
        }
        out
    }

    /// An error reported by a task, passed on as an event.
    pub fn report_error(&self, source: String, message: String) -> (r: Vec<ActorOutput>)
        ensures
            outputs_view(r@) == seq![OutputModel::Event(MuxEventModel::Error { source: source@, message: message@ })],
    {
        let mut out: Vec<ActorOutput> = Vec::new();
        let ghost (a, b) = (source@, message@);
        out.push(ActorOutput::Event(MuxEvent::Error { source, message }));
        proof {
            assert(outputs_view(out@) =~= seq![OutputModel::Event(MuxEventModel::Error { source: a, message: b })]);
        }
        out
    }

    /// The heartbeat: `AI2;` to every radio with a command channel that
    /// speaks Kenwood or Elecraft, in the order they registered.
    pub fn heartbeat(&self) -> (r: Vec<ActorOutput>)
        ensures
            outputs_view(r@) == heartbeat_outputs(self@.cmd_radios),
    {
        let mut out: Vec<ActorOutput> = Vec::new();
        let mut i: usize = 0;
        while i < self.radio_cmd.len()
            invariant
                i <= self.radio_cmd@.len(),
                self@.cmd_radios == self.radio_cmd@,
                outputs_view(out@) == heartbeat_outputs(self@.cmd_radios.subrange(0, i as int)),
            decreases self.radio_cmd.len() - i,
        {
            let (h, p) = self.radio_cmd[i];
            let ghost before = outputs_view(out@);
            if p == Protocol::Kenwood || p == Protocol::Elecraft {
                let mut data: Vec<u8> = Vec::new();
                data.push(65u8);
                data.push(73u8);
                data.push(50u8);
                data.push(59u8);
                proof {
                    assert(data@ =~= seq![65u8, 73u8, 50u8, 59u8]);
                }
                out.push(ActorOutput::ToRadio { handle: h, data });
            }
            proof {
                let s = self@.cmd_radios.subrange(0, i as int + 1);
                assert(s.drop_last() =~= self@.cmd_radios.subrange(0, i as int));
                assert(s.last() == (h, p));
                assert(outputs_view(out@) =~= heartbeat_outputs(s));
            }
            i = i + 1;
        }
        proof {
            assert(self@.cmd_radios.subrange(0, self@.cmd_radios.len() as int) =~= self@.cmd_radios);
        }
        out
    }

    /// Handle one request from the amplifier: a query is answered from the
    /// cache when possible; turning auto-info on sends the cached frequency
    /// and mode; turning it off only records that.
    fn handle_amp_request(&mut self, req: RadioRequest, out: &mut Vec<ActorOutput>)
        ensures
            ({
                let plan = amp_request_plan(
                    old(self).cache,
                    old(self).amp_connected,
                    old(self).multiplexer@.config.amplifier.protocol,
                    req@,
                );
                &&& final(self).cache == plan.0
                &&& outputs_view(final(out)@) == outputs_view(old(out)@) + plan.1
            }),
            cache_wf(old(self).cache) ==> cache_wf(final(self).cache),
            final(self).multiplexer == old(self).multiplexer,
            final(self).radio_channels == old(self).radio_channels,
            final(self).codecs == old(self).codecs,
            final(self).radio_cmd == old(self).radio_cmd,
            final(self).amp_connected == old(self).amp_connected,
            final(self).amp_meta == old(self).amp_meta,
            final(self).amp_codec == old(self).amp_codec,
    {
        let ghost o0 = outputs_view(out@);
        let protocol = self.multiplexer.amplifier_config().protocol;
        let connected = self.amp_connected;
        if req.is_query() {
            match self.handle_amp_query(&req) {
                Some(response) => send_to_amp(connected, protocol, response, out),
                None => {
                    proof {
                        assert(outputs_view(out@) =~= o0 + Seq::<OutputModel>::empty());
                    }
                },
            }
        } else if let RadioRequest::SetAutoInfo { enabled } = req {
            self.cache.auto_info_enabled = enabled;
            if enabled {
                if let Some(hz) = self.cache.frequency_hz {
                    send_to_amp(connected, protocol, RadioResponse::Frequency { hz }, out);
                }
                let ghost o1 = outputs_view(out@);
                if let Some(mode) = self.cache.mode {
                    send_to_amp(connected, protocol, RadioResponse::Mode { mode }, out);
                }
                proof {
                    let c = old(self).cache;
                    let a1 = match c.frequency_hz {
                        Some(hz) => amp_send(connected, protocol, ResponseModel::Frequency { hz }),
                        None => Seq::empty(),
                    };
                    assert(o1 =~= o0 + a1);
                    assert(outputs_view(out@) =~= o0 + (a1 + match c.mode {
                        Some(m) => amp_send(connected, protocol, ResponseModel::Mode { mode: m }),
                        None => Seq::empty(),
                    }));
                }
            } else {
                proof {
                    assert(outputs_view(out@) =~= o0 + Seq::<OutputModel>::empty());
                }
            }
        }
    }

    /// Raw data from the amplifier: it is parsed with a codec for the
    /// amplifier's protocol (made on first use), and each request is
    /// reported as traffic and then handled.
    pub fn amp_raw_data(&mut self, data: &[u8]) -> (r: Vec<ActorOutput>)
        requires
            old(self).wf(),
        ensures
            final(self).wf(),
            amp_data_done(old(self)@, data@, final(self)@, outputs_view(r@)),
    {
        let ghost s0 = self@;
        let protocol = self.multiplexer.amplifier_config().protocol;
        if self.amp_codec.is_none() {
            self.amp_codec = Some(create_radio_codec(protocol));
        }
        let mut requests: Vec<(RadioRequest, Vec<u8>)> = Vec::new();
        let mut codec = match self.amp_codec.take() {
            Some(c) => c,
            None => create_radio_codec(protocol),
        };
        proof {
            assert(codec@ == amp_codec_in_use(s0));
        }
        codec.push_bytes(data);
        let ghost c1 = codec@;
        let ghost mut qs: Seq<(RequestModel, Seq<u8>)> = Seq::empty();
        let ghost mut cstates: Seq<AnyCodecModel> = seq![c1];
        loop
            invariant_except_break
                cstates.last() == codec@,
            invariant
                self.multiplexer == old(self).multiplexer,
                self.radio_channels == old(self).radio_channels,
                self.codecs == old(self).codecs,
                self.radio_cmd == old(self).radio_cmd,
                self.amp_connected == old(self).amp_connected,
                self.amp_meta == old(self).amp_meta,
                self.cache == old(self).cache,
                requests@.len() == qs.len(),
                forall|k: int| 0 <= k < qs.len() ==> (#[trigger] requests@[k]).0@ == qs[k].0 && requests@[k].1@ == qs[k].1,
                cstates.len() == qs.len() + 1,
                cstates[0] == c1,
                forall|k: int|
                    0 <= k < qs.len() ==> codec_step(cstates[k], true, Some(#[trigger] request_items(qs)[k]), cstates[k + 1]),
            ensures
                codec_step(cstates.last(), true, None, codec@),
            decreases codec_measure(codec@),
        {
            let ghost before = codec@;
            match codec.next_step(true) {
                Some((Ok(req), bytes)) => {
                    proof {
                        let item = (req@, bytes@);
                        let st = choose|st: Option<(Result<RequestModel, ResponseModel>, Seq<u8>)>|
                            {
                                &&& #[trigger] codec_step(before, true, st, codec@)
                                &&& crate::protocol::step_bytes(st) == Some(bytes@)
                                &&& crate::protocol::step_request(st) == Some(req@)
                                &&& st is Some
                            };
                        assert(st == Some((Ok::<RequestModel, ResponseModel>(req@), bytes@)));
                        let qs1 = qs.push(item);
                        assert(request_items(qs1)[qs.len() as int] == (Ok::<RequestModel, ResponseModel>(req@), bytes@));
                        assert forall|k: int| 0 <= k < qs.len() implies request_items(qs1)[k] == request_items(qs)[k] by {}
                        qs = qs1;
                        cstates = cstates.push(codec@);
                    }
                    requests.push((req, bytes));
                },
                _ => {
                    proof {
                        let st = choose|st: Option<(Result<RequestModel, ResponseModel>, Seq<u8>)>|
                            {
                                &&& #[trigger] codec_step(before, true, st, codec@)
                                &&& crate::protocol::step_response(st) == crate::protocol::step_response(st)
                            };
                        assert(st is None);
                    }
                    break;
                },
            }
        }
        let ghost last = codec@;
        self.amp_codec = Some(codec);
        let ghost c0 = s0.cache;
        let ghost conn = s0.amp_connected;
        proof {
            assert(self@ == (ActorModel { amp_codec: Some(last), ..s0 }));
        }
        let mut out: Vec<ActorOutput> = Vec::new();
        let n = requests.len();
        let mut items = requests;
        let mut k: usize = 0;
        while k < n
            invariant
                items@.len() == n - k,
                k <= n,
                n == qs.len(),
                forall|j: int| 0 <= j < n - k ==> (#[trigger] items@[j]).0@ == qs[k + j].0 && items@[j].1@ == qs[k + j].1,
                cache_wf(self.cache),
                self.multiplexer == old(self).multiplexer,
                self.radio_channels == old(self).radio_channels,
                self.codecs == old(self).codecs,
                self.radio_cmd == old(self).radio_cmd,
                self.amp_connected == old(self).amp_connected,
                self.amp_meta == old(self).amp_meta,
                self@.amp_codec == Some(last),
                self.amp_codec is Some,
                protocol == s0.mux.config.amplifier.protocol,
                s0 == old(self)@,
                conn == s0.amp_connected,
                c0 == s0.cache,
                self.cache == amp_run(c0, conn, protocol, qs.take(k as int)).0,
                outputs_view(out@) == amp_run(c0, conn, protocol, qs.take(k as int)).1,
            decreases n - k,
        {
            let (req, bytes) = items.remove(0);
            let ghost o0 = outputs_view(out@);
            let ghost ev = OutputModel::Event(MuxEventModel::AmpDataIn { data: qs[k as int].1, protocol });
            out.push(ActorOutput::Event(MuxEvent::AmpDataIn { data: bytes, protocol }));
            proof {
                assert(outputs_view(out@) =~= o0 + seq![ev]);
            }
            let ghost cb = self.cache;
            let ghost rq = req@;
            let ghost o1 = outputs_view(out@);
            proof {
                assert(self.amp_connected == conn);
                assert(self.multiplexer@.config.amplifier.protocol == protocol);
            }
            self.handle_amp_request(req, &mut out);
            proof {
                let t = qs.take(k as int + 1);
                assert(t.drop_last() =~= qs.take(k as int));
                assert(t.last() == qs[k as int]);
                assert(rq == qs[k as int].0);
                let plan = amp_request_plan(cb, conn, protocol, rq);
                assert(outputs_view(out@) == o1 + plan.1);
                assert(amp_run(c0, conn, protocol, t).1 == amp_run(c0, conn, protocol, qs.take(k as int)).1 + seq![ev]
                    + plan.1);
            }
            k = k + 1;
        }
        proof {
            assert(qs.take(n as int) =~= qs);
            assert(amp_data_handled(s0, data@, self@, outputs_view(out@), qs, cstates, last));
            assert(amp_data_done(s0, data@, self@, outputs_view(out@)));
        }
        out
    }

    /// Raw data from a radio at `now`: it is parsed with the radio's codec,
    /// and each response is reported as traffic and then processed. Data
    /// from a radio without a codec is dropped.
    pub fn radio_raw_data_at(&mut self, handle: RadioHandle, data: &[u8], now_ms: u64) -> (r: Vec<ActorOutput>)
        requires
            old(self).wf(),
        ensures
            final(self).wf(),
            final(self)@.channels == old(self)@.channels,
            final(self)@.amp_connected == old(self)@.amp_connected,
            match entry_index(old(self)@.codecs, handle) {
                None => r@.len() == 0 && final(self)@ == old(self)@,
                Some(i) => radio_data_done(old(self)@, handle, i, data@, now_ms, final(self)@, outputs_view(r@)),
            },
    {
        let mut out: Vec<ActorOutput> = Vec::new();
        let protocol = self.radio_protocol(handle);
        let i = match self.codec_index(handle) {
            Some(i) => i,
            None => {
                return out;
            },
        };
        let ghost s0 = self@;
        let (h, mut codec) = self.codecs.remove(i);
        proof {
            assert(codec_views(old(self).codecs@)[i as int] == (h, codec@));
        }
        let ghost removed = self.codecs@;
        codec.push_bytes(data);
        let ghost c1 = codec@;
        let mut responses: Vec<(RadioResponse, Vec<u8>)> = Vec::new();
        let ghost mut rs: Seq<(ResponseModel, Seq<u8>)> = Seq::empty();
        let ghost mut cstates: Seq<AnyCodecModel> = seq![c1];
        loop
            invariant_except_break
                cstates.last() == codec@,
            invariant
                self.multiplexer == old(self).multiplexer,
                self.radio_channels == old(self).radio_channels,
                self.radio_cmd == old(self).radio_cmd,
                self.amp_connected == old(self).amp_connected,
                self.amp_meta == old(self).amp_meta,
                self.amp_codec == old(self).amp_codec,
                self.cache == old(self).cache,
                self.codecs@ == removed,
                responses@.len() == rs.len(),
                forall|k: int| 0 <= k < rs.len() ==> (#[trigger] responses@[k]).0@ == rs[k].0 && responses@[k].1@ == rs[k].1,
                cstates.len() == rs.len() + 1,
                cstates[0] == c1,
                forall|k: int|
                    0 <= k < rs.len() ==> codec_step(cstates[k], false, Some(#[trigger] response_items(rs)[k]), cstates[k + 1]),
            ensures
                codec_step(cstates.last(), false, None, codec@),
            decreases codec_measure(codec@),
        {
            let ghost before = codec@;
            match codec.next_step(false) {
                Some((Err(resp), bytes)) => {
                    proof {
                        let item = (resp@, bytes@);
                        let st = choose|st: Option<(Result<RequestModel, ResponseModel>, Seq<u8>)>|
                            {
                                &&& #[trigger] codec_step(before, false, st, codec@)
                                &&& crate::protocol::step_bytes(st) == Some(bytes@)
                                &&& crate::protocol::step_response(st) == Some(resp@)
                                &&& st is Some
                            };
                        assert(st == Some((Err::<RequestModel, ResponseModel>(resp@), bytes@)));
                        let rs1 = rs.push(item);
                        assert(response_items(rs1)[rs.len() as int] == (Err::<RequestModel, ResponseModel>(resp@), bytes@));
                        assert forall|k: int| 0 <= k < rs.len() implies response_items(rs1)[k] == response_items(rs)[k] by {}
                        rs = rs1;
                        cstates = cstates.push(codec@);
                    }
                    responses.push((resp, bytes));
                },
                _ => {
                    proof {
                        let st = choose|st: Option<(Result<RequestModel, ResponseModel>, Seq<u8>)>|
                            {
                                &&& #[trigger] codec_step(before, false, st, codec@)
                                &&& crate::protocol::step_request(st) == crate::protocol::step_request(st)
                            };
                        assert(st is None);
                    }
                    break;
                },
            }
        }
        let ghost last = codec@;
        self.codecs.insert(i, (h, codec));
        proof {
            assert(self@.codecs =~= s0.codecs.update(i as int, (handle, last)));
            assert(self@.channels =~= s0.channels);
            assert(self@ == (ActorModel { codecs: s0.codecs.update(i as int, (handle, last)), ..s0 }));
        }
        let ghost st0 = self@;
        let n = responses.len();
        let mut items = responses;
        let mut k: usize = 0;
        let ghost mut states: Seq<ActorModel> = seq![st0];
        let ghost mut outs: Seq<Seq<OutputModel>> = Seq::empty();
        while k < n
            invariant
                items@.len() == n - k,
                k <= n,
                n == rs.len(),
                forall|j: int| 0 <= j < n - k ==> (#[trigger] items@[j]).0@ == rs[k + j].0 && items@[j].1@ == rs[k + j].1,
                self.wf(),
                states.len() == k + 1,
                outs.len() == k,
                states[0] == st0,
                forall|j: int| 0 <= j < k ==> responded(states[j], handle, rs[j].0, now_ms, states[j + 1], #[trigger] outs[j]),
                self@ == states.last(),
                outputs_view(out@) == radio_traffic(handle, protocol, rs.take(k as int), outs).flatten(),
                protocol == channel_protocol(s0, handle),
                self@.channels == s0.channels,
                self@.amp_connected == s0.amp_connected,
            decreases n - k,
        {
            let (resp, bytes) = items.remove(0);
            let ghost o0 = outputs_view(out@);
            let ghost ev = OutputModel::Event(MuxEventModel::RadioDataIn { handle, data: rs[k as int].1, protocol });
            out.push(ActorOutput::Event(MuxEvent::RadioDataIn { handle, data: bytes, protocol }));
            let mut more = self.process_radio_response_at(handle, resp, now_ms);
            let ghost m = outputs_view(more@);
            out.append(&mut more);
            proof {
                let outs1 = outs.push(m);
                let t0 = radio_traffic(handle, protocol, rs.take(k as int), outs);
                let t1 = radio_traffic(handle, protocol, rs.take(k as int + 1), outs1);
                assert(t1 =~= t0.push(seq![ev] + m));
                t0.lemma_flatten_push(seq![ev] + m);
                assert(outputs_view(out@) =~= o0 + (seq![ev] + m));
                states = states.push(self@);
                outs = outs1;
            }
            k = k + 1;
        }
        proof {
            assert(rs.take(n as int) =~= rs);
            assert(radio_data_handled(
                s0,
                handle,
                i as int,
                data@,
                now_ms,
                self@,
                outputs_view(out@),
                rs,
                cstates,
                last,
                states,
                outs,
            ));
            assert(radio_data_done(s0, handle, i as int, data@, now_ms, self@, outputs_view(out@)));
        }
        out
    }

    /// Handle one command at `now`: the dispatcher of the actor's loop.
    pub fn handle_command(&mut self, cmd: ActorCommand, now_ms: u64) -> (r: ActorReply)
        requires
            old(self).wf(),
            cmd is RegisterRadio ==> old(self)@.mux.next_handle < u32::MAX,
        ensures
            final(self).wf(),
            r.stop <==> cmd is Shutdown,
            r.handle is Some <==> cmd is RegisterRadio,
            r.handle matches Some(h) ==> h == RadioHandle(old(self)@.mux.next_handle),
            cmd matches ActorCommand::QueryRadioState { handle } ==> match find_radio(old(self)@.mux.radios, handle) {
                Some(i) => r.state matches Some(st) && st.frequency_hz == old(self)@.mux.radios[i].frequency_hz
                    && st.mode == old(self)@.mux.radios[i].mode && st.ptt == old(self)@.mux.radios[i].ptt,
                None => r.state is None,
            },
            !(cmd is QueryRadioState) ==> r.state is None,
            cmd is Shutdown ==> r.outputs@.len() == 0 && final(self)@ == old(self)@,
            cmd is Heartbeat ==> outputs_view(r.outputs@) == heartbeat_outputs(old(self)@.cmd_radios)
                && final(self)@ == old(self)@,
            match cmd {
                ActorCommand::RegisterRadio { meta, has_command_channel } => registered(
                    old(self)@,
                    meta@,
                    has_command_channel,
                    now_ms,
                    r.handle->0,
                    final(self)@,
                    outputs_view(r.outputs@),
                ),
                ActorCommand::UnregisterRadio { handle } => unregistered(
                    old(self)@,
                    handle,
                    final(self)@,
                    outputs_view(r.outputs@),
                ),
                ActorCommand::RadioResponse { handle, response } => responded(
                    old(self)@,
                    handle,
                    response@,
                    now_ms,
                    final(self)@,
                    outputs_view(r.outputs@),
                ),
                ActorCommand::RadioRawData { handle, data } => match entry_index(old(self)@.codecs, handle) {
                    None => r.outputs@.len() == 0 && final(self)@ == old(self)@,
                    Some(i) => radio_data_done(
                        old(self)@,
                        handle,
                        i,
                        data@,
                        now_ms,
                        final(self)@,
                        outputs_view(r.outputs@),
                    ),
                },
                ActorCommand::RadioRawDataOut { handle, data } => final(self)@ == old(self)@ && outputs_view(
                    r.outputs@,
                ) == data_out_event(old(self)@, handle, data@),
                ActorCommand::AmpRawData { data } => amp_data_done(
                    old(self)@,
                    data@,
                    final(self)@,
                    outputs_view(r.outputs@),
                ),
                ActorCommand::SetActiveRadio { handle } => activated(
                    old(self)@,
                    handle,
                    now_ms,
                    final(self)@,
                    outputs_view(r.outputs@),
                ),
                ActorCommand::QueryRadioState { .. } => final(self)@ == old(self)@ && r.outputs@.len() == 0,
                ActorCommand::UpdateRadioMeta { handle, name } => r.outputs@.len() == 0 && renamed(
                    old(self)@,
                    handle,
                    match name {
                        Some(n) => Some(n@),
                        None => None,
                    },
                    final(self)@,
                ),
                ActorCommand::ConnectAmplifier { meta } => {
                    &&& final(self)@ == (ActorModel {
                        amp_connected: true,
                        amp_meta: Some(meta@),
                        amp_codec: None,
                        cache: empty_cache(),
                        ..old(self)@
                    })
                    &&& outputs_view(r.outputs@) == seq![OutputModel::Event(MuxEventModel::AmpConnected { meta: meta@ })]
                },
                ActorCommand::DisconnectAmplifier => {
                    &&& final(self)@ == (ActorModel {
                        amp_connected: false,
                        amp_meta: None,
                        amp_codec: None,
                        cache: empty_cache(),
                        ..old(self)@
                    })
                    &&& outputs_view(r.outputs@) == seq![OutputModel::Event(MuxEventModel::AmpDisconnected)]
                },
                ActorCommand::SetAmplifierConfig { port, protocol, baud_rate, civ_address } => r.outputs@.len() == 0
                    && amp_configured(old(self)@, port@, protocol, baud_rate, civ_address, final(self)@),
                ActorCommand::SetSwitchingMode { mode } => mode_switched(
                    old(self)@,
                    mode,
                    final(self)@,
                    outputs_view(r.outputs@),
                ),
                ActorCommand::ReportError { source, message } => final(self)@ == old(self)@ && outputs_view(
                    r.outputs@,
                ) == seq![OutputModel::Event(MuxEventModel::Error { source: source@, message: message@ })],
                ActorCommand::Heartbeat => true,
                ActorCommand::Shutdown => true,
            },
    {
        let mut reply = ActorReply { outputs: Vec::new(), handle: None, state: None, stop: false };
        match cmd {
            ActorCommand::RegisterRadio { meta, has_command_channel } => {
                let (h, out) = self.register_radio(meta, has_command_channel, now_ms);
                reply.handle = Some(h);
                reply.outputs = out;
            },
            ActorCommand::UnregisterRadio { handle } => {
                reply.outputs = self.unregister_radio(handle);
            },
            ActorCommand::RadioResponse { handle, response } => {
                reply.outputs = self.process_radio_response_at(handle, response, now_ms);
            },
            ActorCommand::RadioRawData { handle, data } => {
                reply.outputs = self.radio_raw_data_at(handle, data.as_slice(), now_ms);
            },
            ActorCommand::RadioRawDataOut { handle, data } => {
                reply.outputs = self.radio_raw_data_out(handle, data);
            },
            ActorCommand::AmpRawData { data } => {
                reply.outputs = self.amp_raw_data(data.as_slice());
            },
            ActorCommand::SetActiveRadio { handle } => {
                reply.outputs = self.set_active_radio_at(handle, now_ms);
            },
            ActorCommand::QueryRadioState { handle } => {
                reply.state = self.query_radio_state(handle);
            },
            ActorCommand::UpdateRadioMeta { handle, name } => {
                self.update_radio_meta(handle, name);
            },
            ActorCommand::ConnectAmplifier { meta } => {
                reply.outputs = self.connect_amplifier(meta);
            },
            ActorCommand::DisconnectAmplifier => {
                reply.outputs = self.disconnect_amplifier();
            },
            ActorCommand::SetAmplifierConfig { port, protocol, baud_rate, civ_address } => {
                self.set_amplifier_config(port, protocol, baud_rate, civ_address);
            },
            ActorCommand::SetSwitchingMode { mode } => {
                reply.outputs = self.set_switching_mode(mode);
            },
            ActorCommand::ReportError { source, message } => {
                reply.outputs = self.report_error(source, message);
            },
            ActorCommand::Heartbeat => {
                reply.outputs = self.heartbeat();
            },
            ActorCommand::Shutdown => {
                reply.stop = true;
            },
        }
        reply
    }
}


/// Band inference from VFO reports: selecting A (or B) puts control and
/// transmit on it and ends split; split then transmits on the other VFO,
/// with control staying where it was.
pub proof fn law_vfo_band_inference(c: AmpCache)
    ensures
        ({
            let a = bands_after(c, ResponseModel::Vfo { vfo: Vfo::A });
            &&& a.control_band == Some(0u8) && a.tx_band == Some(0u8) && !a.split
            &&& bands_after(a, ResponseModel::Vfo { vfo: Vfo::Split }).control_band == Some(0u8)
            &&& bands_after(a, ResponseModel::Vfo { vfo: Vfo::Split }).tx_band == Some(1u8)
            &&& bands_after(a, ResponseModel::Vfo { vfo: Vfo::Split }).split
        }),
        ({
            let b = bands_after(c, ResponseModel::Vfo { vfo: Vfo::B });
            &&& b.control_band == Some(1u8) && b.tx_band == Some(1u8) && !b.split
            &&& bands_after(b, ResponseModel::Vfo { vfo: Vfo::Split }).control_band == Some(1u8)
            &&& bands_after(b, ResponseModel::Vfo { vfo: Vfo::Split }).tx_band == Some(0u8)
        }),
        ({
            let s = bands_after(c, ResponseModel::Vfo { vfo: Vfo::Split });
            let a = bands_after(s, ResponseModel::Vfo { vfo: Vfo::A });
            !a.split && a.tx_band == Some(0u8)
        }),
{
}

/// Without auto-info mode the amplifier is sent nothing when a radio
/// reports, whatever the radio says.
pub proof fn law_no_amp_traffic_without_auto_info(s: ActorModel, h: RadioHandle, r: ResponseModel, now_ms: u64)
    requires
        !s.cache.auto_info_enabled,
    ensures
        forall|i: int|
            0 <= i < response_plan(s, h, r, now_ms).1.len() ==> !(#[trigger] response_plan(s, h, r, now_ms).1[i] is ToAmp),
{
    let c1 = if s.mux.active == Some(h) {
        bands_after(s.cache, r)
    } else {
        s.cache
    };
    assert(!c1.auto_info_enabled);
    let plan = response_plan(s, h, r, now_ms);
    let a = radio_fmp(s.mux, h);
    let new_active = active_after(s.mux, h, r, now_ms);
    let m1 = MuxModel { radios: radios_after(s.mux, h, r, now_ms), ..s.mux };
    let b = radio_fmp(m1, h);
    let data = forwarded(s.mux, new_active, h, r);
    let protocol = s.mux.config.amplifier.protocol;
    let c2 = cache_after_forward(c1, data, b);
    assert(!c2.auto_info_enabled);
    let (c3, ups) = auto_info_updates(c2, false, s.amp_connected, protocol, a, b);
    assert(ups =~= Seq::<OutputModel>::empty());
    let head = state_change_output(h, a, b) + active_change_output(s.mux.active, new_active);
    assert(forward_output(c1, s.amp_connected, protocol, data) =~= Seq::<OutputModel>::empty());
    assert(plan.1 =~= head);
}

/// The actor infers bands from what the active radio reports: after a VFO
/// report from it, the amplifier-facing cache holds the control band, the
/// transmit band and the split that `bands_after` gives (see
/// `law_vfo_band_inference`).
pub proof fn law_actor_vfo_band_inference(s: ActorModel, h: RadioHandle, vfo: Vfo, now_ms: u64)
    requires
        s.mux.active == Some(h),
    ensures
        ({
            let c = response_plan(s, h, ResponseModel::Vfo { vfo }, now_ms).0;
            let b = bands_after(s.cache, ResponseModel::Vfo { vfo });
            &&& c.control_band == b.control_band
            &&& c.tx_band == b.tx_band
            &&& c.split == b.split
        }),
{
}

} // verus!
