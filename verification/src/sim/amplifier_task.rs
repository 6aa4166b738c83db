//! Virtual amplifier task: the decisions
//!
//! The task owns a virtual amplifier and reads CAT commands from a stream;
//! each chunk read is parsed and processed, and a state event follows any
//! change. The stream and channels belong to the caller.

use vstd::prelude::*;

use crate::command::OperatingMode;
use crate::protocol::{codec_measure, create_radio_codec, AnyRadioCodec, RadioCodec};
use crate::sim::amplifier::{sim_amp_after, sim_amp_state_differs, SimAmpModel, VirtualAmplifier};

verus! {

/// Commands that can be sent to a virtual amplifier task
#[derive(Debug, Clone, Copy)]
pub enum VirtualAmpCommand {
    /// Shutdown the virtual amplifier task
    Shutdown,
}

/// State event emitted when virtual amplifier state changes
#[derive(Debug, Clone, Copy)]
pub struct VirtualAmpStateEvent {
    /// Current frequency in Hz
    pub frequency_hz: u64,
    /// Current operating mode
    pub mode: OperatingMode,
    /// Current PTT state
    pub ptt: bool,
}

/// The state event describing an amplifier.
pub open spec fn state_event_of(a: SimAmpModel) -> VirtualAmpStateEvent {
    VirtualAmpStateEvent { frequency_hz: a.frequency_hz, mode: a.mode, ptt: a.ptt }
}

/// A running virtual amplifier: the amplifier and the codec its input is
/// parsed with.
pub struct VirtualAmpSession {
    amp: VirtualAmplifier,
    codec: AnyRadioCodec,
}

impl VirtualAmpSession {
    /// Start a session with a codec for the amplifier's protocol.
    pub fn new(amp: VirtualAmplifier) -> (r: Self)
        ensures
            r.amp()@ == amp@,
    {
        let codec = create_radio_codec(amp.protocol());
        VirtualAmpSession { amp, codec }
    }

    /// The amplifier, by name.
    pub closed spec fn amp(&self) -> VirtualAmplifier {
        self.amp
    }

    /// The amplifier.
    pub fn amplifier(&self) -> (r: &VirtualAmplifier)
        ensures
            r@ == self.amp()@,
    {
        &self.amp
    }

    /// The state announced when the task starts.
    pub fn initial_state(&self) -> (r: VirtualAmpStateEvent)
        ensures
            r == state_event_of(self.amp()@),
    {
        VirtualAmpStateEvent {
            frequency_hz: self.amp.frequency_hz(),
            mode: self.amp.mode(),
            ptt: self.amp.ptt(),
        }
    }

    /// A chunk read from the stream: the codec takes it and consumes every
    /// complete command, then the amplifier processes the chunk; a state
    /// event is returned when frequency, mode or PTT changed.
    pub fn on_data(&mut self, data: &[u8]) -> (r: Option<VirtualAmpStateEvent>)
        ensures
            final(self).amp()@ == sim_amp_after(old(self).amp()@, data@),
            sim_amp_state_differs(old(self).amp()@, final(self).amp()@) ==> r == Some(
                state_event_of(final(self).amp()@),
            ),
            !sim_amp_state_differs(old(self).amp()@, final(self).amp()@) ==> r is None,
    {
        self.codec.push_bytes(data);
        loop
            invariant
                self.amp == old(self).amp,
            decreases codec_measure(self.codec@),
        {
            match self.codec.next_response() {
                Some(_) => {},
                None => {
                    break;
                },
            }
        }
        if self.amp.process_command(data) {
            Some(
                VirtualAmpStateEvent {
                    frequency_hz: self.amp.frequency_hz(),
                    mode: self.amp.mode(),
                    ptt: self.amp.ptt(),
                },
            )
        } else {
            None
        }
    }
}

} // verus!
