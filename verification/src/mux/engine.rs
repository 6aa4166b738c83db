//! Multiplexer engine: radio switching, state tracking and command routing.

use vstd::prelude::*;

use crate::command::{RadioResponse, ResponseModel};
use crate::mux::error::MuxError;
use crate::mux::state::{
    elapsed_ms, fresh_radio, touched, with_frequency, with_mode, with_ptt, AmplifierConfig,
    RadioHandle, RadioState, RadioStateModel, SwitchingMode,
};
use crate::mux::translation::{
    amp_filter, carries_frequency, filter_for_amplifier, translate_spec, ProtocolTranslator,
    TranslationConfig, TranslatorModel,
};
use crate::protocol::Protocol;
use crate::text::{dec, push_all, push_dec, text_from_bytes, wire_text};

verus! {

/// Multiplexer configuration
#[derive(Debug, Clone)]
pub struct MultiplexerConfig {
    /// Switching mode
    pub switching_mode: SwitchingMode,
    /// Lockout time after switching (ms)
    pub lockout_ms: u64,
    /// Amplifier configuration
    pub amplifier: AmplifierConfig,
    /// Translation configuration
    pub translation: TranslationConfig,
    /// Radio priority order (handles)
    pub priority_order: Vec<u32>,
}

/// The mathematical value of an `AmplifierConfig`.
pub struct AmpConfigModel {
    pub port: Seq<char>,
    pub protocol: Protocol,
    pub baud_rate: u32,
    pub civ_address: Option<u8>,
}

/// The mathematical value of a `MultiplexerConfig`.
pub struct ConfigModel {
    pub switching_mode: SwitchingMode,
    pub lockout_ms: u64,
    pub amplifier: AmpConfigModel,
    pub translation: TranslationConfig,
    pub priority_order: Seq<u32>,
}

pub open spec fn amp_config_view(a: AmplifierConfig) -> AmpConfigModel {
    AmpConfigModel {
        port: a.port@,
        protocol: a.protocol,
        baud_rate: a.baud_rate,
        civ_address: a.civ_address,
    }
}

impl View for MultiplexerConfig {
    type V = ConfigModel;

    open spec fn view(&self) -> ConfigModel {
        ConfigModel {
            switching_mode: self.switching_mode,
            lockout_ms: self.lockout_ms,
            amplifier: amp_config_view(self.amplifier),
            translation: self.translation,
            priority_order: self.priority_order@,
        }
    }
}

impl Default for MultiplexerConfig {
    fn default() -> (r: Self)
        ensures
            r.switching_mode == SwitchingMode::FrequencyTriggered,
            r.lockout_ms == 500,
            r.amplifier.port@ == Seq::<char>::empty(),
            r.amplifier.protocol == Protocol::Kenwood,
            r.amplifier.baud_rate == 38400,
            r.amplifier.civ_address == None::<u8>,
            r.translation == (TranslationConfig {
                frequency_precision_hz: 10,
                fallback_modes: true,
                target_civ_address: None,
            }),
            r.priority_order@ == Seq::<u32>::empty(),
    {
        MultiplexerConfig {
            switching_mode: SwitchingMode::FrequencyTriggered,
            lockout_ms: 500,
            amplifier: AmplifierConfig::default(),
            translation: TranslationConfig::default(),
            priority_order: Vec::new(),
        }
    }
}

/// Events emitted by the multiplexer
#[derive(Debug)]
pub enum MultiplexerEvent {
    /// A radio was added
    RadioAdded(RadioHandle),
    /// A radio was removed
    RadioRemoved(RadioHandle),
    /// The active radio changed
    ActiveRadioChanged { from: Option<RadioHandle>, to: RadioHandle },
    /// Radio state updated
    RadioStateUpdated(RadioHandle),
    /// Command translated and ready for amplifier
    AmplifierCommand(Vec<u8>),
    /// Switching was blocked due to lockout
    SwitchingBlocked { requested: RadioHandle, current: RadioHandle, remaining_ms: u64 },
    /// Error occurred
    Error(String),
}

/// The mathematical value of a `MultiplexerEvent`.
pub enum EventModel {
    RadioAdded(RadioHandle),
    RadioRemoved(RadioHandle),
    ActiveRadioChanged { from: Option<RadioHandle>, to: RadioHandle },
    RadioStateUpdated(RadioHandle),
    AmplifierCommand(Seq<u8>),
    SwitchingBlocked { requested: RadioHandle, current: RadioHandle, remaining_ms: u64 },
    Error(Seq<char>),
}

impl View for MultiplexerEvent {
    type V = EventModel;

    open spec fn view(&self) -> EventModel {
        match self {
            MultiplexerEvent::RadioAdded(h) => EventModel::RadioAdded(*h),
            MultiplexerEvent::RadioRemoved(h) => EventModel::RadioRemoved(*h),
            MultiplexerEvent::ActiveRadioChanged { from, to } => EventModel::ActiveRadioChanged {
                from: *from,
                to: *to,
            },
            MultiplexerEvent::RadioStateUpdated(h) => EventModel::RadioStateUpdated(*h),
            MultiplexerEvent::AmplifierCommand(b) => EventModel::AmplifierCommand(b@),
            MultiplexerEvent::SwitchingBlocked { requested, current, remaining_ms } =>
                EventModel::SwitchingBlocked {
                requested: *requested,
                current: *current,
                remaining_ms: *remaining_ms,
            },
            MultiplexerEvent::Error(s) => EventModel::Error(s@),
        }
    }
}

/// The multiplexer engine
pub struct Multiplexer {
    config: MultiplexerConfig,
    radios: Vec<RadioState>,
    next_handle: u32,
    active_radio: Option<RadioHandle>,
    lockout_until_ms: Option<u64>,
    translator: ProtocolTranslator,
    event_buffer: Vec<MultiplexerEvent>,
    /// The instant the multiplexer's times are measured from
    clock: std::time::Instant,
}

/// The mathematical value of a `Multiplexer`.
pub struct MuxModel {
    pub config: ConfigModel,
    /// The radios, in the order they were added
    pub radios: Seq<RadioStateModel>,
    pub next_handle: u32,
    pub active: Option<RadioHandle>,
    /// When the lockout after the last switch ends, in clock milliseconds
    pub lockout_until_ms: Option<u64>,
    pub translator: TranslatorModel,
    /// Events not yet drained
    pub events: Seq<EventModel>,
}

pub open spec fn radio_views(v: Seq<RadioState>) -> Seq<RadioStateModel> {
    Seq::new(v.len(), |i: int| v[i]@)
}

pub open spec fn event_views(v: Seq<MultiplexerEvent>) -> Seq<EventModel> {
    Seq::new(v.len(), |i: int| v[i]@)
}

impl View for Multiplexer {
    type V = MuxModel;

    closed spec fn view(&self) -> MuxModel {
        MuxModel {
            config: self.config@,
            radios: radio_views(self.radios@),
            next_handle: self.next_handle,
            active: self.active_radio,
            lockout_until_ms: self.lockout_until_ms,
            translator: self.translator@,
            events: event_views(self.event_buffer@),
        }
    }
}

/// Index of the radio with handle `h`.
pub open spec fn find_radio(radios: Seq<RadioStateModel>, h: RadioHandle) -> Option<int> {
    if exists|i: int| 0 <= i < radios.len() && radios[i].handle == h {
        Some(choose|i: int| 0 <= i < radios.len() && radios[i].handle == h)
    } else {
        None
    }
}

/// The multiplexer's invariant: handles are distinct and below the next
/// handle to give out; a radio is active exactly when there are radios, and
/// it is one of them; the translator targets the configured amplifier with
/// the configured translation settings.
pub open spec fn mux_wf(m: MuxModel) -> bool {
    &&& forall|i: int, j: int|
        0 <= i < j < m.radios.len() ==> #[trigger] m.radios[i].handle != #[trigger] m.radios[j].handle
    &&& forall|i: int| 0 <= i < m.radios.len() ==> (#[trigger] m.radios[i]).handle.0 < m.next_handle
    &&& (m.active is None <==> m.radios.len() == 0)
    &&& m.active matches Some(h) ==> find_radio(m.radios, h) is Some
    &&& m.translator == (TranslatorModel {
        config: m.config.translation,
        target_protocol: m.config.amplifier.protocol,
    })
}

/// The lockout is in force at `now`.
pub open spec fn locked_at(m: MuxModel, now_ms: u64) -> bool {
    m.lockout_until_ms matches Some(u) && now_ms < u
}

/// Milliseconds of lockout left at `now`.
pub open spec fn lockout_left(m: MuxModel, now_ms: u64) -> u64 {
    match m.lockout_until_ms {
        Some(u) => if now_ms < u {
            (u - now_ms) as u64
        } else {
            0
        },
        None => 0,
    }
}

/// When a lockout started at `now` ends.
pub open spec fn lockout_end(m: MuxModel, now_ms: u64) -> u64 {
    if now_ms + m.config.lockout_ms > u64::MAX {
        u64::MAX
    } else {
        (now_ms + m.config.lockout_ms) as u64
    }
}

/// A radio's state after one of its responses arrives at `now`:
/// frequency, mode and PTT reports (and the parts of a status report that
/// carry them) are recorded; anything else only counts as activity.
pub open spec fn apply_response(s: RadioStateModel, r: ResponseModel, now_ms: u64) -> RadioStateModel {
    match r {
        ResponseModel::Frequency { hz } => with_frequency(s, hz, now_ms),
        ResponseModel::Mode { mode } => with_mode(s, mode, now_ms),
        ResponseModel::Ptt { active } => with_ptt(s, active, now_ms),
        ResponseModel::Status { frequency_hz, mode, ptt, .. } => {
            let s1 = match frequency_hz {
                Some(hz) => with_frequency(s, hz, now_ms),
                None => s,
            };
            let s2 = match mode {
                Some(m) => with_mode(s1, m, now_ms),
                None => s1,
            };
            match ptt {
                Some(p) => with_ptt(s2, p, now_ms),
                None => s2,
            }
        },
        _ => touched(s, now_ms),
    }
}

/// The frequency radio `h` had before a response, if it is known.
pub open spec fn prior_frequency(m: MuxModel, h: RadioHandle) -> Option<u64> {
    match find_radio(m.radios, h) {
        Some(i) => m.radios[i].frequency_hz,
        None => None,
    }
}

/// The response reports a frequency other than `prior`: the radio changed
/// frequency.
pub open spec fn frequency_changes(r: ResponseModel, prior: Option<u64>) -> bool {
    r matches ResponseModel::Frequency { hz } && prior != Some(hz)
}

/// Whether a response makes its radio the active one under a switching
/// mode, given the radio's frequency before it: never when manual; on a
/// change of frequency when frequency-triggered; on a change of frequency
/// or PTT-on when automatic.
pub open spec fn triggers_switch(mode: SwitchingMode, r: ResponseModel, prior: Option<u64>) -> bool {
    match mode {
        SwitchingMode::Manual => false,
        SwitchingMode::FrequencyTriggered => frequency_changes(r, prior),
        SwitchingMode::Automatic => frequency_changes(r, prior) || r == (ResponseModel::Ptt { active: true }),
    }
}

/// A response from radio `h` at `now` makes it active: the radio is known,
/// not already active, the lockout is over, and the response triggers a
/// switch.
pub open spec fn auto_switches(m: MuxModel, h: RadioHandle, r: ResponseModel, now_ms: u64) -> bool {
    switch_due(m, h, r, now_ms, prior_frequency(m, h))
}

/// `auto_switches` with the radio's earlier frequency given.
pub open spec fn switch_due(m: MuxModel, h: RadioHandle, r: ResponseModel, now_ms: u64, prior: Option<u64>) -> bool {
    &&& find_radio(m.radios, h) is Some
    &&& m.active != Some(h)
    &&& !locked_at(m, now_ms)
    &&& triggers_switch(m.config.switching_mode, r, prior)
}

/// What reaches the amplifier when radio `h` reports `r` and `active` is the
/// active radio afterwards: nothing unless `h` is active, and then the
/// amplifier's share of `r` in its protocol, if it can carry it.
pub open spec fn forwarded(m: MuxModel, active: Option<RadioHandle>, h: RadioHandle, r: ResponseModel) -> Option<Seq<u8>> {
    if active != Some(h) {
        None
    } else {
        match amp_filter(r) {
            Some(f) => translate_spec(m.translator, f),
            None => None,
        }
    }
}

/// The amplifier's share of `r` cannot be encoded in its protocol.
pub open spec fn translation_fails(m: MuxModel, active: Option<RadioHandle>, h: RadioHandle, r: ResponseModel) -> bool {
    &&& active == Some(h)
    &&& amp_filter(r) matches Some(f) && translate_spec(m.translator, f) is None
}

/// Event lists equal up to the text of error events.
pub open spec fn same_events(a: Seq<EventModel>, b: Seq<EventModel>) -> bool {
    &&& a.len() == b.len()
    &&& forall|i: int| 0 <= i < a.len() ==> (a[i] == b[i] || (a[i] is Error && b[i] is Error))
}

/// The events a response from `h` produces, in order.
pub open spec fn process_events(m: MuxModel, h: RadioHandle, r: ResponseModel, now_ms: u64) -> Seq<EventModel> {
    let updated = if find_radio(m.radios, h) is Some {
        seq![EventModel::RadioStateUpdated(h)]
    } else {
        Seq::empty()
    };
    let switched = if auto_switches(m, h, r, now_ms) {
        seq![EventModel::ActiveRadioChanged { from: m.active, to: h }]
    } else {
        Seq::empty()
    };
    let active = if auto_switches(m, h, r, now_ms) {
        Some(h)
    } else {
        m.active
    };
    let out = match forwarded(m, active, h, r) {
        Some(b) => seq![EventModel::AmplifierCommand(b)],
        None => if translation_fails(m, active, h, r) {
            seq![EventModel::Error(Seq::empty())]
        } else {
            Seq::empty()
        },
    };
    updated + switched + out
}

/// The views of a vector of radios after one is replaced.
proof fn lemma_radio_views_update()
    ensures
        forall|v: Seq<RadioState>, i: int, x: RadioState|
            0 <= i < v.len() ==> #[trigger] radio_views(v.update(i, x)) == radio_views(v).update(i, x@),
{
    assert forall|v: Seq<RadioState>, i: int, x: RadioState| 0 <= i < v.len() implies #[trigger] radio_views(
        v.update(i, x),
    ) == radio_views(v).update(i, x@) by {
        assert(radio_views(v.update(i, x)) =~= radio_views(v).update(i, x@));
    }
}

/// With distinct handles, the radio found for a handle is the one that has it.
pub proof fn lemma_find_radio(radios: Seq<RadioStateModel>, h: RadioHandle, i: int)
    requires
        forall|a: int, b: int|
            0 <= a < b < radios.len() ==> #[trigger] radios[a].handle != #[trigger] radios[b].handle,
        0 <= i < radios.len(),
        radios[i].handle == h,
    ensures
        find_radio(radios, h) == Some(i),
{
    let w = choose|k: int| 0 <= k < radios.len() && radios[k].handle == h;
    if w != i {
        if w < i {
            assert(radios[w].handle != radios[i].handle);
        } else {
            assert(radios[i].handle != radios[w].handle);
        }
    }
}

/// A radio's new state after response `r` at `now`.
fn apply_to_radio(state: &mut RadioState, cmd: &RadioResponse, now_ms: u64)
    ensures
        final(state)@ == apply_response(old(state)@, cmd@, now_ms),
{
    match cmd {
        RadioResponse::Frequency { hz } => state.set_frequency_at(*hz, now_ms),
        RadioResponse::Mode { mode } => state.set_mode_at(*mode, now_ms),
        RadioResponse::Ptt { active } => state.set_ptt_at(*active, now_ms),
        RadioResponse::Status { frequency_hz, mode, ptt, .. } => {
            if let Some(hz) = frequency_hz {
                state.set_frequency_at(*hz, now_ms);
            }
            if let Some(m) = mode {
                state.set_mode_at(*m, now_ms);
            }
            if let Some(p) = ptt {
                state.set_ptt_at(*p, now_ms);
            }
        },
        _ => state.touch_at(now_ms),
    }
}

/// The radios after a response from `h` at `now`: that radio's state moves
/// by `apply_response`; an unknown handle changes nothing.
pub open spec fn radios_after(m: MuxModel, h: RadioHandle, r: ResponseModel, now_ms: u64) -> Seq<RadioStateModel> {
    match find_radio(m.radios, h) {
        Some(i) => m.radios.update(i, apply_response(m.radios[i], r, now_ms)),
        None => m.radios,
    }
}

/// The active radio after a response from `h` at `now`.
pub open spec fn active_after(m: MuxModel, h: RadioHandle, r: ResponseModel, now_ms: u64) -> Option<RadioHandle> {
    if auto_switches(m, h, r, now_ms) {
        Some(h)
    } else {
        m.active
    }
}

/// The lockout after a response from `h` at `now`: a switch starts one.
pub open spec fn lockout_after(m: MuxModel, h: RadioHandle, r: ResponseModel, now_ms: u64) -> Option<u64> {
    if auto_switches(m, h, r, now_ms) {
        Some(lockout_end(m, now_ms))
    } else {
        m.lockout_until_ms
    }
}

/// Selecting `handle` by hand at `now`: an unknown radio is an error and
/// changes nothing; during the lockout the switch is refused with the time
/// left and a `SwitchingBlocked` event; otherwise it becomes active, a
/// change being announced and starting the lockout.
pub open spec fn selected(m0: MuxModel, handle: RadioHandle, now_ms: u64, m1: MuxModel, r: Result<(), MuxError>) -> bool {
    &&& find_radio(m0.radios, handle) is None ==> {
        &&& r matches Err(MuxError::RadioNotFound(_))
        &&& m1 == m0
    }
    &&& find_radio(m0.radios, handle) is Some && locked_at(m0, now_ms) ==> {
        &&& r matches Err(MuxError::SwitchingLocked { requested, current, remaining_ms })
            && requested == handle && Some(current) == m0.active && remaining_ms
            == lockout_left(m0, now_ms)
        &&& m1 == (MuxModel {
            events: m0.events.push(
                EventModel::SwitchingBlocked {
                    requested: handle,
                    current: m0.active->0,
                    remaining_ms: lockout_left(m0, now_ms),
                },
            ),
            ..m0
        })
    }
    &&& find_radio(m0.radios, handle) is Some && !locked_at(m0, now_ms) ==> {
        &&& r is Ok
        &&& m0.active == Some(handle) ==> m1 == m0
        &&& m0.active != Some(handle) ==> m1 == (MuxModel {
            active: Some(handle),
            lockout_until_ms: Some(lockout_end(m0, now_ms)),
            events: m0.events.push(
                EventModel::ActiveRadioChanged { from: m0.active, to: handle },
            ),
            ..m0
        })
    }
}

/// Translating a response from `h` at `now` divides by the frequency
/// precision: its radio is then active and the response carries a frequency.
pub open spec fn rounds_frequency(m: MuxModel, h: RadioHandle, r: ResponseModel, now_ms: u64) -> bool {
    active_after(m, h, r, now_ms) == Some(h) && carries_frequency(r)
}

/// The message of a failed translation, as the error displays it.
fn translation_error_text(e: &MuxError) -> (r: String)
    ensures
        r@ == match e {
            MuxError::TranslationError(m) => "translation error: "@ + m@,
            _ => "translation error"@,
        },
{
    match e {
        MuxError::TranslationError(m) => "translation error: ".to_owned().concat(m.as_str()),
        _ => "translation error".to_owned(),
    }
}

/// `handle N`, for messages.
fn handle_text(h: RadioHandle) -> (r: String)
    ensures
        r@ == wire_text(seq![104u8, 97, 110, 100, 108, 101, 32] + dec(h.0 as nat)),
{
    let mut b: Vec<u8> = Vec::new();
    push_all(&mut b, &[104u8, 97, 110, 100, 108, 101, 32]);
    push_dec(&mut b, h.0 as u64);
    proof {
        assert(b@ =~= seq![104u8, 97, 110, 100, 108, 101, 32] + dec(h.0 as nat));
    }
    text_from_bytes(b.as_slice())
}

impl Multiplexer {
    /// The multiplexer's invariant holds.
    pub open spec fn wf(&self) -> bool {
        mux_wf(self@)
    }

    proof fn lemma_view_radios(&self)
        ensures
            self@.radios.len() == self.radios@.len(),
            forall|i: int| 0 <= i < self.radios@.len() ==> #[trigger] self@.radios[i] == self.radios@[i]@,
    {
    }

    /// Changing one radio's state but not its handle keeps the invariant.
    proof fn lemma_update_keeps_wf(&self, m0: MuxModel, i: int)
        requires
            mux_wf(m0),
            0 <= i < m0.radios.len(),
            self@.radios.len() == m0.radios.len(),
            self@.radios[i].handle == m0.radios[i].handle,
            forall|k: int| 0 <= k < m0.radios.len() && k != i ==> self@.radios[k] == m0.radios[k],
            self@.active == m0.active,
            self@.next_handle == m0.next_handle,
            self@.config == m0.config,
            self@.translator == m0.translator,
        ensures
            self.wf(),
            forall|h: RadioHandle| #[trigger] find_radio(self@.radios, h) == find_radio(m0.radios, h),
    {
        let rs = self@.radios;
        assert forall|a: int, b: int| 0 <= a < b < rs.len() implies #[trigger] rs[a].handle
            != #[trigger] rs[b].handle by {
            assert(rs[a].handle == m0.radios[a].handle);
            assert(rs[b].handle == m0.radios[b].handle);
        }
        assert forall|k: int| 0 <= k < rs.len() implies (#[trigger] rs[k]).handle.0 < self@.next_handle by {
            assert(rs[k].handle == m0.radios[k].handle);
        }
        assert forall|h: RadioHandle| #[trigger] find_radio(self@.radios, h) == find_radio(m0.radios, h) by {
            if find_radio(m0.radios, h) is Some {
                let k = find_radio(m0.radios, h)->0;
                assert(0 <= k < m0.radios.len() && m0.radios[k].handle == h);
                assert(rs[k].handle == h);
                lemma_find_radio(rs, h, k);
            } else if find_radio(rs, h) is Some {
                let k = find_radio(rs, h)->0;
                assert(0 <= k < rs.len() && rs[k].handle == h);
                assert(m0.radios[k].handle == h);
            }
        }
    }

    /// Create a new multiplexer with default configuration
    pub fn new() -> (r: Self)
        ensures
            r.wf(),
            r@.radios == Seq::<RadioStateModel>::empty(),
            r@.active == None::<RadioHandle>,
            r@.lockout_until_ms == None::<u64>,
            r@.events == Seq::<EventModel>::empty(),
            r@.next_handle == 1,
            r@.config.switching_mode == SwitchingMode::FrequencyTriggered,
            r@.config.lockout_ms == 500,
            r@.config.amplifier.protocol == Protocol::Kenwood,
            r@.config.translation.frequency_precision_hz == 10,
    {
        Self::with_config(MultiplexerConfig::default())
    }

    /// Create with custom configuration
    pub fn with_config(config: MultiplexerConfig) -> (r: Self)
        ensures
            r.wf(),
            r@.config == config@,
            r@.radios == Seq::<RadioStateModel>::empty(),
            r@.active == None::<RadioHandle>,
            r@.lockout_until_ms == None::<u64>,
            r@.events == Seq::<EventModel>::empty(),
            r@.next_handle == 1,
    {
        let translator = ProtocolTranslator::with_config(config.amplifier.protocol, config.translation);
        let r = Multiplexer {
            config,
            radios: Vec::new(),
            next_handle: 1,
            active_radio: None,
            lockout_until_ms: None,
            translator,
            event_buffer: Vec::new(),
            clock: crate::mux::state::instant_now(),
        };
        proof {
            assert(r@.radios =~= Seq::<RadioStateModel>::empty());
            assert(r@.events =~= Seq::<EventModel>::empty());
        }
        r
    }

    /// Get the current configuration
    pub fn config(&self) -> (r: &MultiplexerConfig)
        ensures
            r@ == self@.config,
    {
        &self.config
    }

    /// Update the configuration
    pub fn set_config(&mut self, config: MultiplexerConfig)
        requires
            old(self).wf(),
        ensures
            final(self).wf(),
            final(self)@ == (MuxModel {
                config: config@,
                translator: TranslatorModel {
                    config: config.translation,
                    target_protocol: config.amplifier.protocol,
                },
                ..old(self)@
            }),
    {
        self.translator = ProtocolTranslator::with_config(config.amplifier.protocol, config.translation);
        self.config = config;
    }

    /// Set the switching mode
    pub fn set_switching_mode(&mut self, mode: SwitchingMode)
        requires
            old(self).wf(),
        ensures
            final(self).wf(),
            final(self)@ == (MuxModel {
                config: ConfigModel { switching_mode: mode, ..old(self)@.config },
                ..old(self)@
            }),
    {
        self.config.switching_mode = mode;
    }

    /// Get the switching mode
    pub fn switching_mode(&self) -> (r: SwitchingMode)
        ensures
            r == self@.config.switching_mode,
    {
        self.config.switching_mode
    }

    /// A handle can still be given out.
    pub fn can_add_radio(&self) -> (r: bool)
        ensures
            r == (self@.next_handle < u32::MAX),
    {
        self.next_handle < u32::MAX
    }

    /// Add a radio registered at `now_ms`. The first radio becomes active.
    pub fn add_radio_at(&mut self, name: String, port: String, protocol: Protocol, now_ms: u64) -> (h: RadioHandle)
        requires
            old(self).wf(),
            old(self)@.next_handle < u32::MAX,
        ensures
            final(self).wf(),
            h == RadioHandle(old(self)@.next_handle),
            final(self)@.radios == old(self)@.radios.push(
                fresh_radio(h, name@, port@, protocol, now_ms, false),
            ),
            final(self)@.active == (if old(self)@.active is None {
                Some(h)
            } else {
                old(self)@.active
            }),
            final(self)@.next_handle == old(self)@.next_handle + 1,
            final(self)@.events == old(self)@.events.push(EventModel::RadioAdded(h)),
            final(self)@.config == old(self)@.config,
            final(self)@.lockout_until_ms == old(self)@.lockout_until_ms,
            final(self)@.translator == old(self)@.translator,
    {
        let handle = RadioHandle(self.next_handle);
        self.next_handle = self.next_handle + 1;
        let state = RadioState::new_at(handle, name, port, protocol, now_ms);
        self.radios.push(state);
        if self.active_radio.is_none() {
            self.active_radio = Some(handle);
        }
        self.event_buffer.push(MultiplexerEvent::RadioAdded(handle));
        proof {
            assert(self@.radios =~= old(self)@.radios.push(
                fresh_radio(handle, name@, port@, protocol, now_ms, false),
            ));
            assert(self@.events =~= old(self)@.events.push(EventModel::RadioAdded(handle)));
            let n = old(self)@.radios.len() as int;
            lemma_find_radio(self@.radios, handle, n);
            if let Some(a) = old(self)@.active {
                let k = find_radio(old(self)@.radios, a)->0;
                assert(self@.radios[k] == old(self)@.radios[k]);
                lemma_find_radio(self@.radios, a, k);
            }
        }
        handle
    }

    /// Add a radio to the multiplexer; the first radio becomes active.
    pub fn add_radio(&mut self, name: String, port: String, protocol: Protocol) -> (h: RadioHandle)
        requires
            old(self).wf(),
            old(self)@.next_handle < u32::MAX,
        ensures
            final(self).wf(),
            h == RadioHandle(old(self)@.next_handle),
            final(self)@.radios == old(self)@.radios.push(
                fresh_radio(h, name@, port@, protocol, final(self)@.radios.last().last_activity_ms, false),
            ),
            final(self)@.active == (if old(self)@.active is None {
                Some(h)
            } else {
                old(self)@.active
            }),
            final(self)@.next_handle == old(self)@.next_handle + 1,
            final(self)@.events == old(self)@.events.push(EventModel::RadioAdded(h)),
            final(self)@.config == old(self)@.config,
            final(self)@.lockout_until_ms == old(self)@.lockout_until_ms,
            final(self)@.translator == old(self)@.translator,
    {
        let now_ms = elapsed_ms(&self.clock);
        self.add_radio_at(name, port, protocol, now_ms)
    }

    /// Position of the radio with handle `h`.
    fn find_index(&self, h: RadioHandle) -> (r: Option<usize>)
        requires
            self.wf(),
        ensures
            r matches Some(i) ==> find_radio(self@.radios, h) == Some(i as int) && i < self@.radios.len(),
            r is None <==> find_radio(self@.radios, h) is None,
    {
        let mut i: usize = 0;
        while i < self.radios.len()
            invariant
                i <= self.radios@.len(),
                self.wf(),
                forall|k: int| 0 <= k < i ==> self@.radios[k].handle != h,
            decreases self.radios.len() - i,
        {
            proof {
                self.lemma_view_radios();
            }
            if self.radios[i].handle == h {
                proof {
                    lemma_find_radio(self@.radios, h, i as int);
                }
                return Some(i);
            }
            i = i + 1;
        }
        proof {
            self.lemma_view_radios();
            if find_radio(self@.radios, h) is Some {
                let w = choose|k: int| 0 <= k < self@.radios.len() && self@.radios[k].handle == h;
                assert(self@.radios[w].handle == h);
            }
        }
        None
    }

    /// Remove a radio. When it was the active one, the first remaining
    /// radio (in the order they were added) becomes active, or none.
    pub fn remove_radio(&mut self, handle: RadioHandle) -> (r: Option<RadioState>)
        requires
            old(self).wf(),
        ensures
            final(self).wf(),
            match find_radio(old(self)@.radios, handle) {
                Some(i) => {
                    &&& r matches Some(s) && s@ == old(self)@.radios[i]
                    &&& final(self)@.radios == old(self)@.radios.remove(i)
                    &&& final(self)@.active == (if old(self)@.active == Some(handle) {
                        if final(self)@.radios.len() > 0 {
                            Some(final(self)@.radios[0].handle)
                        } else {
                            None
                        }
                    } else {
                        old(self)@.active
                    })
                    &&& final(self)@.events == old(self)@.events.push(EventModel::RadioRemoved(handle))
                },
                None => r is None && final(self)@ == old(self)@,
            },
            final(self)@.config == old(self)@.config,
            final(self)@.next_handle == old(self)@.next_handle,
            final(self)@.lockout_until_ms == old(self)@.lockout_until_ms,
            final(self)@.translator == old(self)@.translator,
    {
        let i = match self.find_index(handle) {
            Some(i) => i,
            None => {
                return None;
            },
        };
        let ghost before = self@.radios;
        let state = self.radios.remove(i);
        proof {
            assert(self@.radios =~= before.remove(i as int));
        }
        if self.active_radio == Some(handle) {
            if self.radios.len() > 0 {
                self.active_radio = Some(self.radios[0].handle);
            } else {
                self.active_radio = None;
            }
        }
        self.event_buffer.push(MultiplexerEvent::RadioRemoved(handle));
        proof {
            assert(self@.events =~= old(self)@.events.push(EventModel::RadioRemoved(handle)));
            let rs = self@.radios;
            assert forall|a: int, b: int| 0 <= a < b < rs.len() implies #[trigger] rs[a].handle
                != #[trigger] rs[b].handle by {
                let a2 = if a < i { a } else { a + 1 };
                let b2 = if b < i { b } else { b + 1 };
                assert(rs[a] == before[a2]);
                assert(rs[b] == before[b2]);
            }
            assert forall|k: int| 0 <= k < rs.len() implies (#[trigger] rs[k]).handle.0 < self@.next_handle by {
                let k2 = if k < i { k } else { k + 1 };
                assert(rs[k] == before[k2]);
            }
            if rs.len() > 0 && self@.active == Some(rs[0].handle) {
                lemma_find_radio(rs, rs[0].handle, 0);
            }
            if let Some(a) = self@.active {
                if a != handle {
                    let k = find_radio(before, a)->0;
                    let k2 = if k < i { k } else { k - 1 };
                    assert(k != i);
                    assert(rs[k2] == before[k]);
                    lemma_find_radio(rs, a, k2);
                }
            }
        }
        Some(state)
    }

    /// Get a radio's state
    pub fn get_radio(&self, handle: RadioHandle) -> (r: Option<&RadioState>)
        requires
            self.wf(),
        ensures
            match find_radio(self@.radios, handle) {
                Some(i) => r matches Some(s) && s@ == self@.radios[i],
                None => r is None,
            },
    {
        match self.find_index(handle) {
            Some(i) => {
                proof {
                    self.lemma_view_radios();
                }
                Some(&self.radios[i])
            },
            None => None,
        }
    }

    /// Get a radio's state for changing it in place. The multiplexer's view
    /// afterwards holds whatever the caller leaves there.
    pub fn get_radio_mut(&mut self, handle: RadioHandle) -> (r: Option<&mut RadioState>)
        requires
            old(self).wf(),
        ensures
            match find_radio(old(self)@.radios, handle) {
                Some(i) => r matches Some(s) && s@ == old(self)@.radios[i] && final(self)@ == (MuxModel {
                    radios: old(self)@.radios.update(i, final(s)@),
                    ..old(self)@
                }),
                None => r is None && final(self)@ == old(self)@,
            },
    {
        match self.find_index(handle) {
            Some(i) => {
                proof {
                    self.lemma_view_radios();
                    lemma_radio_views_update();
                }
                Some(&mut self.radios[i])
            },
            None => None,
        }
    }

    /// Change a radio's display name; an unknown handle changes nothing.
    pub fn rename_radio(&mut self, handle: RadioHandle, name: String)
        requires
            old(self).wf(),
        ensures
            final(self).wf(),
            match find_radio(old(self)@.radios, handle) {
                Some(i) => final(self)@ == (MuxModel {
                    radios: old(self)@.radios.update(i, RadioStateModel { name: name@, ..old(self)@.radios[i] }),
                    ..old(self)@
                }),
                None => final(self)@ == old(self)@,
            },
    {
        let ghost m0 = self@;
        if let Some(i) = self.find_index(handle) {
            let mut st = self.radios.remove(i);
            st.name = name;
            self.radios.insert(i, st);
            proof {
                self.lemma_view_radios();
                assert(self@.radios =~= m0.radios.update(i as int, RadioStateModel { name: name@, ..m0.radios[i as int] }));
                self.lemma_update_keeps_wf(m0, i as int);
                assert(self@.events =~= m0.events);
            }
        }
    }

    /// All radios, in the order they were added
    pub fn radios(&self) -> (r: &[RadioState])
        ensures
            radio_views(r@) == self@.radios,
    {
        self.radios.as_slice()
    }

    /// Get the currently active radio
    pub fn active_radio(&self) -> (r: Option<RadioHandle>)
        ensures
            r == self@.active,
    {
        self.active_radio
    }

    /// Get the active radio's state
    pub fn active_radio_state(&self) -> (r: Option<&RadioState>)
        requires
            self.wf(),
        ensures
            match self@.active {
                Some(h) => r matches Some(s) && s@ == self@.radios[find_radio(self@.radios, h)->0],
                None => r is None,
            },
    {
        match self.active_radio {
            Some(h) => self.get_radio(h),
            None => None,
        }
    }

    /// Switch to `handle` at `now`, starting a lockout; a no-op when it is
    /// already active.
    fn switch_to(&mut self, handle: RadioHandle, now_ms: u64)
        requires
            old(self).wf(),
            find_radio(old(self)@.radios, handle) is Some,
        ensures
            final(self).wf(),
            old(self)@.active == Some(handle) ==> final(self)@ == old(self)@,
            old(self)@.active != Some(handle) ==> final(self)@ == (MuxModel {
                active: Some(handle),
                lockout_until_ms: Some(lockout_end(old(self)@, now_ms)),
                events: old(self)@.events.push(
                    EventModel::ActiveRadioChanged { from: old(self)@.active, to: handle },
                ),
                ..old(self)@
            }),
    {
        let old_active = self.active_radio;
        if old_active == Some(handle) {
            return;
        }
        self.active_radio = Some(handle);
        self.lockout_until_ms = Some(now_ms.saturating_add(self.config.lockout_ms));
        self.event_buffer.push(MultiplexerEvent::ActiveRadioChanged { from: old_active, to: handle });
        proof {
            assert(self@.events =~= old(self)@.events.push(
                EventModel::ActiveRadioChanged { from: old(self)@.active, to: handle },
            ));
            assert(self@.radios =~= old(self)@.radios);
        }
    }

    /// Select the active radio by hand at `now`. Fails for an unknown
    /// radio, and during the lockout after a switch (reporting the time
    /// left, with a `SwitchingBlocked` event).
    pub fn select_radio_at(&mut self, handle: RadioHandle, now_ms: u64) -> (r: Result<(), MuxError>)
        requires
            old(self).wf(),
        ensures
            final(self).wf(),
            selected(old(self)@, handle, now_ms, final(self)@, r),
    {
        if self.find_index(handle).is_none() {
            return Err(MuxError::RadioNotFound(handle_text(handle)));
        }
        if let Some(until) = self.lockout_until_ms {
            if now_ms < until {
                let remaining = until - now_ms;
                let current = match self.active_radio {
                    Some(c) => c,
                    None => handle,
                };
                self.event_buffer.push(
                    MultiplexerEvent::SwitchingBlocked { requested: handle, current, remaining_ms: remaining },
                );
                proof {
                    assert(self@.events =~= old(self)@.events.push(
                        EventModel::SwitchingBlocked {
                            requested: handle,
                            current: old(self)@.active->0,
                            remaining_ms: lockout_left(old(self)@, now_ms),
                        },
                    ));
                    assert(self@.radios =~= old(self)@.radios);
                }
                return Err(MuxError::SwitchingLocked { requested: handle, current, remaining_ms: remaining });
            }
        }
        self.switch_to(handle, now_ms);
        Ok(())
    }

    /// Manually select the active radio
    pub fn select_radio(&mut self, handle: RadioHandle) -> (r: Result<(), MuxError>)
        requires
            old(self).wf(),
        ensures
            final(self).wf(),
            exists|now_ms: u64| #[trigger] selected(old(self)@, handle, now_ms, final(self)@, r),
    {
        let now_ms = elapsed_ms(&self.clock);
        let r = self.select_radio_at(handle, now_ms);
        proof {
            assert(selected(old(self)@, handle, now_ms, self@, r));
        }
        r
    }

    /// Whether the lockout is in force at `now`.
    pub fn is_locked_at(&self, now_ms: u64) -> (r: bool)
        ensures
            r == locked_at(self@, now_ms),
    {
        match self.lockout_until_ms {
            Some(until) => now_ms < until,
            None => false,
        }
    }

    /// Check if lockout is active
    pub fn is_locked(&self) -> (r: bool)
        ensures
            exists|now_ms: u64| r == #[trigger] locked_at(self@, now_ms),
    {
        let now_ms = elapsed_ms(&self.clock);
        let r = self.is_locked_at(now_ms);
        proof {
            assert(r == locked_at(self@, now_ms));
        }
        r
    }

    /// Milliseconds of lockout left at `now`.
    pub fn lockout_remaining_ms_at(&self, now_ms: u64) -> (r: u64)
        ensures
            r == lockout_left(self@, now_ms),
    {
        match self.lockout_until_ms {
            Some(until) => if now_ms < until {
                until - now_ms
            } else {
                0
            },
            None => 0,
        }
    }

    /// Get remaining lockout time in ms
    pub fn lockout_remaining_ms(&self) -> (r: u64)
        ensures
            exists|now_ms: u64| r == #[trigger] lockout_left(self@, now_ms),
    {
        let now_ms = elapsed_ms(&self.clock);
        let r = self.lockout_remaining_ms_at(now_ms);
        proof {
            assert(r == lockout_left(self@, now_ms));
        }
        r
    }

    /// Process a response from radio `handle` arriving at `now`: the radio's
    /// state is updated, the multiplexer may switch to it, and when it is
    /// the active radio the amplifier's share of the response is returned
    /// in the amplifier's protocol.
    pub fn process_radio_command_at(&mut self, handle: RadioHandle, cmd: RadioResponse, now_ms: u64) -> (r:
        Option<Vec<u8>>)
        requires
            old(self).wf(),
            old(self)@.config.translation.frequency_precision_hz > 0 || !rounds_frequency(
                old(self)@,
                handle,
                cmd@,
                now_ms,
            ),
        ensures
            final(self).wf(),
            final(self)@.radios == radios_after(old(self)@, handle, cmd@, now_ms),
            final(self)@.active == active_after(old(self)@, handle, cmd@, now_ms),
            final(self)@.lockout_until_ms == lockout_after(old(self)@, handle, cmd@, now_ms),
            match forwarded(old(self)@, final(self)@.active, handle, cmd@) {
                Some(b) => r matches Some(v) && v@ == b,
                None => r is None,
            },
            same_events(
                final(self)@.events,
                old(self)@.events + process_events(old(self)@, handle, cmd@, now_ms),
            ),
            final(self)@.config == old(self)@.config,
            final(self)@.next_handle == old(self)@.next_handle,
            final(self)@.translator == old(self)@.translator,
    {
        let ghost m0 = self@;
        let found = self.find_index(handle);
        let prior = match found {
            Some(i) => self.radios[i].frequency_hz,
            None => None,
        };
        if let Some(i) = found {
            let mut st = self.radios.remove(i);
            apply_to_radio(&mut st, &cmd, now_ms);
            self.radios.insert(i, st);
            self.event_buffer.push(MultiplexerEvent::RadioStateUpdated(handle));
            proof {
                self.lemma_view_radios();
                assert(self@.radios =~= m0.radios.update(i as int, apply_response(m0.radios[i as int], cmd@, now_ms)));
                self.lemma_update_keeps_wf(m0, i as int);
            }
        }
        let ghost m1 = self@;
        proof {
            assert(m1.events =~= m0.events + (if found is Some {
                seq![EventModel::RadioStateUpdated(handle)]
            } else {
                Seq::<EventModel>::empty()
            }));
        }
        self.check_auto_switch(handle, &cmd, now_ms, prior);
        let ghost m2 = self@;
        if self.active_radio != Some(handle) {
            proof {
                assert(m2.events =~= old(self)@.events + process_events(m0, handle, cmd@, now_ms));
            }
            return None;
        }
        let filtered = match filter_for_amplifier(&cmd) {
            Some(f) => f,
            None => {
                proof {
                    assert(m2.events =~= old(self)@.events + process_events(m0, handle, cmd@, now_ms));
                }
                return None;
            },
        };
        match self.translator.translate_response(&filtered) {
            Ok(bytes) => {
                let copy = bytes.clone();
                proof {
                    assert(copy@ =~= bytes@);
                }
                self.event_buffer.push(MultiplexerEvent::AmplifierCommand(copy));
                proof {
                    assert(self@.radios =~= m2.radios);
                    assert(amp_filter(cmd@) == Some(filtered@));
                    assert(translate_spec(m0.translator, filtered@) == Some(bytes@));
                    assert(forwarded(m0, m2.active, handle, cmd@) == Some(bytes@));
                    assert(self@.events =~= m2.events.push(EventModel::AmplifierCommand(bytes@)));
                    assert(self@.events =~= old(self)@.events + process_events(m0, handle, cmd@, now_ms));
                }
                Some(bytes)
            },
            Err(e) => {
                self.event_buffer.push(MultiplexerEvent::Error(translation_error_text(&e)));
                proof {
                    assert(self@.radios =~= m2.radios);
                    let want = old(self)@.events + process_events(m0, handle, cmd@, now_ms);
                    assert(self@.events.len() == want.len());
                    assert forall|k: int| 0 <= k < want.len() implies (self@.events[k] == want[k] || (
                    self@.events[k] is Error && want[k] is Error)) by {
                        if k < m2.events.len() {
                            assert(self@.events[k] == m2.events[k]);
                        }
                    }
                }
                None
            },
        }
    }

    /// Process a command from a radio
    pub fn process_radio_command(&mut self, handle: RadioHandle, cmd: RadioResponse) -> (r: Option<Vec<u8>>)
        requires
            old(self).wf(),
            old(self)@.config.translation.frequency_precision_hz > 0 || !carries_frequency(cmd@) || (
            old(self)@.active != Some(handle) && !(find_radio(old(self)@.radios, handle) is Some
                && triggers_switch(old(self)@.config.switching_mode, cmd@, prior_frequency(old(self)@, handle)))),
        ensures
            final(self).wf(),
            exists|now_ms: u64|
                {
                    &&& final(self)@.radios == radios_after(old(self)@, handle, cmd@, now_ms)
                    &&& final(self)@.active == active_after(old(self)@, handle, cmd@, now_ms)
                    &&& final(self)@.lockout_until_ms == lockout_after(old(self)@, handle, cmd@, now_ms)
                    &&& same_events(
                        final(self)@.events,
                        old(self)@.events + process_events(old(self)@, handle, cmd@, now_ms),
                    )
                },
            match forwarded(old(self)@, final(self)@.active, handle, cmd@) {
                Some(b) => r matches Some(v) && v@ == b,
                None => r is None,
            },
            final(self)@.config == old(self)@.config,
            final(self)@.next_handle == old(self)@.next_handle,
            final(self)@.translator == old(self)@.translator,
    {
        let now = elapsed_ms(&self.clock);
        self.process_radio_command_at(handle, cmd, now)
    }

    /// Switch to `handle` when a response `cmd` from it at `now` calls for it.
    fn check_auto_switch(&mut self, handle: RadioHandle, cmd: &RadioResponse, now_ms: u64, prior: Option<u64>)
        requires
            old(self).wf(),
        ensures
            final(self).wf(),
            final(self)@ == (MuxModel {
                active: if switch_due(old(self)@, handle, cmd@, now_ms, prior) {
                    Some(handle)
                } else {
                    old(self)@.active
                },
                lockout_until_ms: if switch_due(old(self)@, handle, cmd@, now_ms, prior) {
                    Some(lockout_end(old(self)@, now_ms))
                } else {
                    old(self)@.lockout_until_ms
                },
                events: old(self)@.events + (if switch_due(old(self)@, handle, cmd@, now_ms, prior) {
                    seq![EventModel::ActiveRadioChanged { from: old(self)@.active, to: handle }]
                } else {
                    Seq::empty()
                }),
                ..old(self)@
            }),
    {
        if self.find_index(handle).is_none() {
            proof { assert(old(self)@.events + Seq::<EventModel>::empty() =~= old(self)@.events); }
            return;
        }
        if self.active_radio == Some(handle) {
            proof { assert(old(self)@.events + Seq::<EventModel>::empty() =~= old(self)@.events); }
            return;
        }
        if let Some(until) = self.lockout_until_ms {
            if now_ms < until {
                proof { assert(old(self)@.events + Seq::<EventModel>::empty() =~= old(self)@.events); }
                return;
            }
        }
        let should_switch = match self.config.switching_mode {
            SwitchingMode::Manual => false,
            SwitchingMode::FrequencyTriggered => match cmd {
                RadioResponse::Frequency { hz } => prior != Some(*hz),
                _ => false,
            },
            SwitchingMode::Automatic => match cmd {
                RadioResponse::Frequency { hz } => prior != Some(*hz),
                RadioResponse::Ptt { active } => *active,
                _ => false,
            },
        };
        if should_switch {
            self.switch_to(handle, now_ms);
            proof {
                assert(old(self)@.events.push(
                    EventModel::ActiveRadioChanged { from: old(self)@.active, to: handle },
                ) =~= old(self)@.events + seq![EventModel::ActiveRadioChanged { from: old(self)@.active, to: handle }]);
            }
        } else {
            proof { assert(old(self)@.events + Seq::<EventModel>::empty() =~= old(self)@.events); }
        }
    }

    /// Drain pending events
    pub fn drain_events(&mut self) -> (r: Vec<MultiplexerEvent>)
        requires
            old(self).wf(),
        ensures
            final(self).wf(),
            event_views(r@) == old(self)@.events,
            final(self)@ == (MuxModel { events: Seq::empty(), ..old(self)@ }),
    {
        let mut out: Vec<MultiplexerEvent> = Vec::new();
        std::mem::swap(&mut out, &mut self.event_buffer);
        proof {
            assert(self@.events =~= Seq::<EventModel>::empty());
            assert(self@.radios =~= old(self)@.radios);
            assert(event_views(out@) =~= old(self)@.events);
        }
        out
    }

    /// Set amplifier configuration
    pub fn set_amplifier_config(&mut self, config: AmplifierConfig)
        requires
            old(self).wf(),
        ensures
            final(self).wf(),
            final(self)@ == (MuxModel {
                config: ConfigModel { amplifier: amp_config_view(config), ..old(self)@.config },
                translator: TranslatorModel {
                    target_protocol: config.protocol,
                    ..old(self)@.translator
                },
                ..old(self)@
            }),
    {
        self.translator.set_target_protocol(config.protocol);
        self.config.amplifier = config;
    }

    /// Get amplifier configuration
    pub fn amplifier_config(&self) -> (r: &AmplifierConfig)
        ensures
            amp_config_view(*r) == self@.config.amplifier,
    {
        &self.config.amplifier
    }
}

impl Default for Multiplexer {
    fn default() -> (r: Self)
        ensures
            r.wf(),
            r@.radios == Seq::<RadioStateModel>::empty(),
            r@.active == None::<RadioHandle>,
    {
        Self::new()
    }
}

/// The multiplexer after a response from `h` at `now`, leaving aside the
/// events and the radios' own states.
pub open spec fn switching_after(m: MuxModel, h: RadioHandle, r: ResponseModel, now_ms: u64) -> MuxModel {
    MuxModel {
        active: active_after(m, h, r, now_ms),
        lockout_until_ms: lockout_after(m, h, r, now_ms),
        ..m
    }
}

/// In manual mode radio traffic never changes the active radio or the
/// lockout.
pub proof fn law_manual_mode_never_switches(m: MuxModel, h: RadioHandle, r: ResponseModel, now_ms: u64)
    requires
        m.config.switching_mode == SwitchingMode::Manual,
    ensures
        active_after(m, h, r, now_ms) == m.active,
        lockout_after(m, h, r, now_ms) == m.lockout_until_ms,
{
}

/// While the lockout is in force, radio traffic never changes the active
/// radio.
pub proof fn law_lockout_blocks_switching(m: MuxModel, h: RadioHandle, r: ResponseModel, now_ms: u64)
    requires
        locked_at(m, now_ms),
    ensures
        active_after(m, h, r, now_ms) == m.active,
        lockout_after(m, h, r, now_ms) == m.lockout_until_ms,
{
}

/// After a switch, no response from any radio switches again until the
/// configured lockout time has passed.
pub proof fn law_switch_starts_lockout(
    m: MuxModel,
    h: RadioHandle,
    r: ResponseModel,
    now_ms: u64,
    h2: RadioHandle,
    r2: ResponseModel,
    later_ms: u64,
)
    requires
        auto_switches(m, h, r, now_ms),
        now_ms + m.config.lockout_ms <= u64::MAX,
        now_ms <= later_ms < now_ms + m.config.lockout_ms,
    ensures
        !auto_switches(switching_after(m, h, r, now_ms), h2, r2, later_ms),
        active_after(switching_after(m, h, r, now_ms), h2, r2, later_ms) == Some(h),
{
}

/// Only the active radio is heard by the amplifier: nothing is forwarded
/// for any other radio.
pub proof fn law_only_active_radio_forwarded(m: MuxModel, active: Option<RadioHandle>, h: RadioHandle, r: ResponseModel)
    requires
        active != Some(h),
    ensures
        forwarded(m, active, h, r) is None,
{
}

/// Outside the lockout, a known radio that changes frequency becomes the
/// active one in frequency-triggered and automatic modes; a report of the
/// frequency it already had never switches.
pub proof fn law_frequency_change_switches(m: MuxModel, h: RadioHandle, hz: u64, now_ms: u64)
    requires
        m.config.switching_mode != SwitchingMode::Manual,
        find_radio(m.radios, h) is Some,
        !locked_at(m, now_ms),
    ensures
        prior_frequency(m, h) != Some(hz) ==> active_after(m, h, ResponseModel::Frequency { hz }, now_ms) == Some(h),
        prior_frequency(m, h) == Some(hz) ==> active_after(m, h, ResponseModel::Frequency { hz }, now_ms) == m.active,
{
}

/// In automatic mode, keying PTT on a known radio outside the lockout makes
/// it active, and releasing PTT never switches.
pub proof fn law_ptt_switches_in_automatic_mode(m: MuxModel, h: RadioHandle, now_ms: u64)
    requires
        m.config.switching_mode == SwitchingMode::Automatic,
        find_radio(m.radios, h) is Some,
        !locked_at(m, now_ms),
    ensures
        active_after(m, h, ResponseModel::Ptt { active: true }, now_ms) == Some(h),
        active_after(m, h, ResponseModel::Ptt { active: false }, now_ms) == m.active,
{
}

/// A response from a radio the multiplexer does not know changes neither
/// the radios, nor the active radio, nor the lockout.
pub proof fn law_unknown_radio_ignored(m: MuxModel, h: RadioHandle, r: ResponseModel, now_ms: u64)
    requires
        find_radio(m.radios, h) is None,
    ensures
        radios_after(m, h, r, now_ms) == m.radios,
        active_after(m, h, r, now_ms) == m.active,
        lockout_after(m, h, r, now_ms) == m.lockout_until_ms,
{
}

/// Processing a response keeps the set of radios: only the reporting
/// radio's state changes, and it keeps its handle.
pub proof fn law_processing_keeps_radios(m: MuxModel, h: RadioHandle, r: ResponseModel, now_ms: u64)
    requires
        mux_wf(m),
    ensures
        radios_after(m, h, r, now_ms).len() == m.radios.len(),
        forall|i: int|
            0 <= i < m.radios.len() ==> (#[trigger] radios_after(m, h, r, now_ms)[i]).handle
                == m.radios[i].handle,
        forall|i: int|
            0 <= i < m.radios.len() && m.radios[i].handle != h ==> #[trigger] radios_after(
                m,
                h,
                r,
                now_ms,
            )[i] == m.radios[i],
{
    if find_radio(m.radios, h) is Some {
        let k = find_radio(m.radios, h)->0;
        assert(0 <= k < m.radios.len() && m.radios[k].handle == h);
    }
}


/// A known radio's state follows its reports: a frequency, mode or PTT
/// report (or a status report's fields) becomes its frequency, mode or PTT,
/// whether it is active or not.
pub proof fn law_reports_tracked(m: MuxModel, h: RadioHandle, r: ResponseModel, now_ms: u64)
    requires
        find_radio(m.radios, h) is Some,
    ensures
        ({
            let i = find_radio(m.radios, h)->0;
            let s = radios_after(m, h, r, now_ms)[i];
            &&& s.handle == h
            &&& r matches ResponseModel::Frequency { hz } ==> s.frequency_hz == Some(hz)
            &&& r matches ResponseModel::Mode { mode } ==> s.mode == Some(mode)
            &&& r matches ResponseModel::Ptt { active } ==> s.ptt == active
            &&& r matches ResponseModel::Status { frequency_hz: Some(hz), .. } ==> s.frequency_hz == Some(hz)
            &&& r matches ResponseModel::Status { mode: Some(md), .. } ==> s.mode == Some(md)
            &&& r matches ResponseModel::Status { ptt: Some(p), .. } ==> s.ptt == p
        }),
{
    let i = find_radio(m.radios, h)->0;
    assert(0 <= i < m.radios.len() && m.radios[i].handle == h);
}

/// Removing a radio removes exactly that radio: one fewer remains, it is
/// gone, and every other radio is still there, so radios added and removed
/// in any order leave the count of those added less those removed.
pub proof fn law_removal_removes_one(m: MuxModel, h: RadioHandle)
    requires
        mux_wf(m),
        find_radio(m.radios, h) is Some,
    ensures
        ({
            let rest = m.radios.remove(find_radio(m.radios, h)->0);
            &&& rest.len() == m.radios.len() - 1
            &&& find_radio(rest, h) is None
            &&& forall|h2: RadioHandle| h2 != h ==> (#[trigger] find_radio(rest, h2) is Some <==> find_radio(m.radios, h2) is Some)
        }),
{
    let k = find_radio(m.radios, h)->0;
    assert(0 <= k < m.radios.len() && m.radios[k].handle == h);
    let rest = m.radios.remove(k);
    if find_radio(rest, h) is Some {
        let j = choose|j: int| 0 <= j < rest.len() && rest[j].handle == h;
        if j < k {
            assert(rest[j] == m.radios[j]);
        } else {
            assert(rest[j] == m.radios[j + 1]);
        }
    }
    assert forall|h2: RadioHandle| h2 != h implies (#[trigger] find_radio(rest, h2) is Some <==> find_radio(m.radios, h2) is Some) by {
        if find_radio(m.radios, h2) is Some {
            let j = choose|j: int| 0 <= j < m.radios.len() && m.radios[j].handle == h2;
            assert(j != k);
            if j < k {
                assert(rest[j] == m.radios[j]);
            } else {
                assert(rest[j - 1] == m.radios[j]);
            }
        }
        if find_radio(rest, h2) is Some {
            let j = choose|j: int| 0 <= j < rest.len() && rest[j].handle == h2;
            if j < k {
                assert(rest[j] == m.radios[j]);
            } else {
                assert(rest[j] == m.radios[j + 1]);
            }
        }
    }
}

/// Adding a radio gives it a handle no radio had: afterwards there is one
/// radio more, the new one is found by its handle at the end, and every
/// other handle finds what it found before.
pub proof fn law_add_radio_fresh(m: MuxModel, r: RadioStateModel)
    requires
        mux_wf(m),
        r.handle == RadioHandle(m.next_handle),
    ensures
        find_radio(m.radios, r.handle) is None,
        m.radios.push(r).len() == m.radios.len() + 1,
        find_radio(m.radios.push(r), r.handle) == Some(m.radios.len() as int),
        forall|h: RadioHandle| h != r.handle ==> #[trigger] find_radio(m.radios.push(r), h) == find_radio(m.radios, h),
{
    let rs = m.radios.push(r);
    if find_radio(m.radios, r.handle) is Some {
        let k = choose|i: int| 0 <= i < m.radios.len() && m.radios[i].handle == r.handle;
        assert(m.radios[k].handle.0 < m.next_handle);
    }
    assert forall|a: int, b: int| 0 <= a < b < rs.len() implies #[trigger] rs[a].handle != #[trigger] rs[b].handle by {
        if b == m.radios.len() {
            assert(m.radios[a].handle.0 < m.next_handle);
        }
    }
    assert(rs[m.radios.len() as int].handle == r.handle);
    lemma_find_radio(rs, r.handle, m.radios.len() as int);
    assert forall|h: RadioHandle| h != r.handle implies #[trigger] find_radio(rs, h) == find_radio(m.radios, h) by {
        if find_radio(m.radios, h) is Some {
            let k = choose|i: int| 0 <= i < m.radios.len() && m.radios[i].handle == h;
            assert(rs[k] == m.radios[k]);
            lemma_find_radio(m.radios, h, k);
            lemma_find_radio(rs, h, k);
        } else if find_radio(rs, h) is Some {
            let k = choose|i: int| 0 <= i < rs.len() && rs[i].handle == h;
            assert(k < m.radios.len());
            assert(m.radios[k] == rs[k]);
        }
    }
}

/// The switching rule: outside the lockout, a known radio that is not
/// active becomes active exactly when its report calls for it: never in
/// manual mode; on a change of frequency in frequency-triggered mode; on a
/// change of frequency or PTT on in automatic mode. Otherwise the active
/// radio stays as it was.
pub proof fn law_switching_rule(m: MuxModel, h: RadioHandle, r: ResponseModel, now_ms: u64)
    requires
        find_radio(m.radios, h) is Some,
        m.active != Some(h),
        !locked_at(m, now_ms),
    ensures
        (active_after(m, h, r, now_ms) == Some(h)) <==> match m.config.switching_mode {
            SwitchingMode::Manual => false,
            SwitchingMode::FrequencyTriggered => r matches ResponseModel::Frequency { hz } && prior_frequency(m, h)
                != Some(hz),
            SwitchingMode::Automatic => (r matches ResponseModel::Frequency { hz } && prior_frequency(m, h) != Some(
                hz,
            )) || r == (ResponseModel::Ptt { active: true }),
        },
        active_after(m, h, r, now_ms) != Some(h) ==> active_after(m, h, r, now_ms) == m.active,
{
}

} // verus!
