//! Control logic of the Tumburu synthesizer voice: the sample-accurate event
//! sequencer, the envelope's stage machine and the routing of sequencer events
//! to a voice. The signal arithmetic itself is done by the host program.

pub mod envelope;
pub mod sequencer;
pub mod synth;

use vstd::prelude::*;

verus! {

/// Capacity of a sequencer's event list: events added beyond it are dropped.
pub const MAX_EVENTS: usize = 2048;

/// Shape of the oscillator's periodic signal.
#[derive(Clone, Copy, Debug, PartialEq, Eq, Structural)]
pub enum Waveform {
    Sine,
    Sawtooth,
    Square,
    Triangle,
}

/// Stage of an attack-decay-sustain-release envelope.
#[derive(Clone, Copy, Debug, PartialEq, Eq, Structural)]
pub enum AdsrState {
    Idle,
    Attack,
    Decay,
    Sustain,
    Release,
}

} // verus!
