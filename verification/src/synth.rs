//! Parameters of a synthesizer voice and how sequencer events change a voice's
//! settings and its envelope stage.

use crate::sequencer::SequencerEvent;
use crate::{AdsrState, Waveform};
use vstd::prelude::*;

verus! {

/// A change of one voice parameter. Every numeric value is carried as the
/// IEEE-754 single-precision bit pattern of the number it stands for; the
/// library only routes it, the host program decodes and uses it.
#[derive(Clone, Copy, Debug, PartialEq, Eq, Structural)]
pub enum SynthParameter {
    Waveform(Waveform),
    /// Filter cutoff frequency in Hz.
    Cutoff(u32),
    /// Filter resonance.
    Resonance(u32),
    /// Gain applied before the output saturation.
    Overdrive(u32),
    /// Envelope attack time in seconds.
    Attack(u32),
    /// Envelope decay time in seconds.
    Decay(u32),
    /// Envelope sustain level.
    Sustain(u32),
    /// Envelope release time in seconds.
    Release(u32),
}

/// The envelope stage of a voice after it handles `event` in `stage`.
pub open spec fn stage_after_event(stage: AdsrState, event: SequencerEvent) -> AdsrState {
    match event {
        SequencerEvent::NoteOn { .. } => AdsrState::Attack,
        SequencerEvent::NoteOff => AdsrState::Release,
        _ => stage,
    }
}

/// The control settings of a voice, each number carried as the IEEE-754
/// single-precision bit pattern of its value.
#[derive(Clone, Copy, Debug, PartialEq, Eq, Structural)]
pub struct VoiceParams {
    pub waveform: Waveform,
    /// Frequency of the current note, in Hz.
    pub note_freq: u32,
    /// Requested filter cutoff in Hz (the host limits it to the audible band).
    pub cutoff: u32,
    /// Requested filter resonance (the host limits it to [0, 1]).
    pub resonance: u32,
    /// Gain applied before the output saturation.
    pub overdrive: u32,
    /// Envelope attack time in seconds.
    pub attack: u32,
    /// Envelope decay time in seconds.
    pub decay: u32,
    /// Envelope sustain level.
    pub sustain: u32,
    /// Envelope release time in seconds.
    pub release: u32,
}

/// The settings of a voice after it handles `event`: a note-on sets the note's
/// frequency (its velocity is ignored), a parameter change sets that one
/// parameter, and every other event leaves the settings as they were.
pub open spec fn params_after_event(p: VoiceParams, event: SequencerEvent) -> VoiceParams {
    match event {
        SequencerEvent::NoteOn { note_freq, .. } => VoiceParams { note_freq, ..p },
        SequencerEvent::ParamChange(param) => match param {
            SynthParameter::Waveform(w) => VoiceParams { waveform: w, ..p },
            SynthParameter::Cutoff(c) => VoiceParams { cutoff: c, ..p },
            SynthParameter::Resonance(r) => VoiceParams { resonance: r, ..p },
            SynthParameter::Overdrive(o) => VoiceParams { overdrive: o, ..p },
            SynthParameter::Attack(a) => VoiceParams { attack: a, ..p },
            SynthParameter::Decay(d) => VoiceParams { decay: d, ..p },
            SynthParameter::Sustain(v) => VoiceParams { sustain: v, ..p },
            SynthParameter::Release(r) => VoiceParams { release: r, ..p },
        },
        _ => p,
    }
}

impl VoiceParams {
    /// The settings of a fresh voice: sawtooth, no note (frequency 0), cutoff
    /// 1000 Hz, resonance 0.1, overdrive 1, attack 0.01 s, decay 0.1 s,
    /// sustain 0.7, release 0.2 s.
    pub fn new() -> (r: Self)
        ensures
            r == (VoiceParams {
                waveform: Waveform::Sawtooth,
                note_freq: 0,
                cutoff: 0x447a0000,
                resonance: 0x3dcccccd,
                overdrive: 0x3f800000,
                attack: 0x3c23d70a,
                decay: 0x3dcccccd,
                sustain: 0x3f333333,
                release: 0x3e4ccccd,
            }),
    {
        VoiceParams {
            waveform: Waveform::Sawtooth,
            note_freq: 0,
            cutoff: 0x447a0000,
            resonance: 0x3dcccccd,
            overdrive: 0x3f800000,
            attack: 0x3c23d70a,
            decay: 0x3dcccccd,
            sustain: 0x3f333333,
            release: 0x3e4ccccd,
        }
    }

    /// The settings after the voice handles `event`.
    pub fn after_event(&self, event: &SequencerEvent) -> (r: VoiceParams)
        ensures
            r == params_after_event(*self, *event),
            *event matches SequencerEvent::NoteOn { note_freq, .. } ==> r == (VoiceParams {
                note_freq,
                ..*self
            }),
            *event matches SequencerEvent::ParamChange(q) ==> r == param_set(*self, q),
            *event is NoteOff || *event is EndOfPattern || *event is NoOp ==> r == *self,
    {
        let mut r = *self;
        match event {
            SequencerEvent::NoteOn { note_freq, .. } => r.note_freq = *note_freq,
            SequencerEvent::ParamChange(param) => match param {
                SynthParameter::Waveform(w) => r.waveform = *w,
                SynthParameter::Cutoff(c) => r.cutoff = *c,
                SynthParameter::Resonance(v) => r.resonance = *v,
                SynthParameter::Overdrive(o) => r.overdrive = *o,
                SynthParameter::Attack(a) => r.attack = *a,
                SynthParameter::Decay(d) => r.decay = *d,
                SynthParameter::Sustain(v) => r.sustain = *v,
                SynthParameter::Release(v) => r.release = *v,
            },
            _ => {},
        }
        r
    }
}

/// The settings `p` with the one field that `q` names set to `q`'s value.
pub open spec fn param_set(p: VoiceParams, q: SynthParameter) -> VoiceParams {
    VoiceParams {
        waveform: if let SynthParameter::Waveform(w) = q { w } else { p.waveform },
        note_freq: p.note_freq,
        cutoff: if let SynthParameter::Cutoff(v) = q { v } else { p.cutoff },
        resonance: if let SynthParameter::Resonance(v) = q { v } else { p.resonance },
        overdrive: if let SynthParameter::Overdrive(v) = q { v } else { p.overdrive },
        attack: if let SynthParameter::Attack(v) = q { v } else { p.attack },
        decay: if let SynthParameter::Decay(v) = q { v } else { p.decay },
        sustain: if let SynthParameter::Sustain(v) = q { v } else { p.sustain },
        release: if let SynthParameter::Release(v) = q { v } else { p.release },
    }
}

/// A note-on sets the note's frequency to the event's, whatever the settings
/// were before, and changes nothing else; its velocity plays no part.
pub proof fn lemma_note_on_sets_frequency(p: VoiceParams, note_freq: u32, velocity: u32)
    ensures
        ({
            let r = params_after_event(p, SequencerEvent::NoteOn { note_freq, velocity });
            &&& r.note_freq == note_freq
            &&& r.waveform == p.waveform
            &&& r.cutoff == p.cutoff
            &&& r.resonance == p.resonance
            &&& r.overdrive == p.overdrive
            &&& r.attack == p.attack
            &&& r.decay == p.decay
            &&& r.sustain == p.sustain
            &&& r.release == p.release
        }),
{
}

/// A parameter change sets exactly the field it names to its value and leaves
/// every other field, the note frequency included, as it was.
pub proof fn lemma_param_change_sets_its_field(p: VoiceParams, q: SynthParameter)
    ensures
        ({
            let r = params_after_event(p, SequencerEvent::ParamChange(q));
            &&& r.note_freq == p.note_freq
            &&& (if let SynthParameter::Waveform(w) = q { r.waveform == w } else { r.waveform == p.waveform })
            &&& (if let SynthParameter::Cutoff(v) = q { r.cutoff == v } else { r.cutoff == p.cutoff })
            &&& (if let SynthParameter::Resonance(v) = q { r.resonance == v } else { r.resonance == p.resonance })
            &&& (if let SynthParameter::Overdrive(v) = q { r.overdrive == v } else { r.overdrive == p.overdrive })
            &&& (if let SynthParameter::Attack(v) = q { r.attack == v } else { r.attack == p.attack })
            &&& (if let SynthParameter::Decay(v) = q { r.decay == v } else { r.decay == p.decay })
            &&& (if let SynthParameter::Sustain(v) = q { r.sustain == v } else { r.sustain == p.sustain })
            &&& (if let SynthParameter::Release(v) = q { r.release == v } else { r.release == p.release })
        }),
{
}

/// Note-offs, end-of-pattern markers and no-ops leave a voice's settings as
/// they were.
pub proof fn lemma_other_events_keep_settings(p: VoiceParams, e: SequencerEvent)
    requires
        e is NoteOff || e is EndOfPattern || e is NoOp,
    ensures
        params_after_event(p, e) == p,
{
}

/// A note-on puts the envelope into its attack and a note-off into its release,
/// from any stage; every other event, any parameter change included, leaves
/// the stage as it was.
pub proof fn lemma_only_notes_move_the_envelope(stage: AdsrState, e: SequencerEvent)
    ensures
        e is NoteOn ==> stage_after_event(stage, e) == AdsrState::Attack,
        e is NoteOff ==> stage_after_event(stage, e) == AdsrState::Release,
        !(e is NoteOn) && !(e is NoteOff) ==> stage_after_event(stage, e) == stage,
{
}

/// The envelope stage of a voice after it handles `event`: a note-on starts the
/// attack, a note-off starts the release, and every other event leaves the
/// stage as it was.
pub fn envelope_stage_after(stage: AdsrState, event: &SequencerEvent) -> (r: AdsrState)
    ensures
        r == stage_after_event(stage, *event),
        *event is NoteOn ==> r == AdsrState::Attack,
        *event is NoteOff ==> r == AdsrState::Release,
        !(*event is NoteOn) && !(*event is NoteOff) ==> r == stage,
{
    match event {
        SequencerEvent::NoteOn { .. } => stage.trigger_on(),
        SequencerEvent::NoteOff => stage.trigger_off(),
        _ => stage,
    }
}

} // verus!
