use tumburu::envelope::EnvelopeStep;
use tumburu::sequencer::SequencerEvent;
use tumburu::synth::{envelope_stage_after, SynthParameter, VoiceParams};
use tumburu::{AdsrState, Waveform};

const ALL_STAGES: [AdsrState; 5] = [
    AdsrState::Idle,
    AdsrState::Attack,
    AdsrState::Decay,
    AdsrState::Sustain,
    AdsrState::Release,
];

#[test]
fn each_stage_has_its_step() {
    assert_eq!(AdsrState::Idle.step(), EnvelopeStep::Silence);
    assert_eq!(AdsrState::Attack.step(), EnvelopeStep::RiseToPeak);
    assert_eq!(AdsrState::Decay.step(), EnvelopeStep::FallToSustain);
    assert_eq!(AdsrState::Sustain.step(), EnvelopeStep::Hold);
    assert_eq!(AdsrState::Release.step(), EnvelopeStep::FallToZero);
}

#[test]
fn stages_advance_only_when_the_target_is_reached() {
    for s in ALL_STAGES {
        assert_eq!(s.after_step(false), s);
    }
    assert_eq!(AdsrState::Attack.after_step(true), AdsrState::Decay);
    assert_eq!(AdsrState::Decay.after_step(true), AdsrState::Sustain);
    assert_eq!(AdsrState::Release.after_step(true), AdsrState::Idle);
    assert_eq!(AdsrState::Idle.after_step(true), AdsrState::Idle);
    assert_eq!(AdsrState::Sustain.after_step(true), AdsrState::Sustain);
}

#[test]
fn gate_triggers_set_the_stage_from_any_stage() {
    for s in ALL_STAGES {
        assert_eq!(s.trigger_on(), AdsrState::Attack);
        assert_eq!(s.trigger_off(), AdsrState::Release);
    }
}

#[test]
fn note_events_drive_the_envelope_stage() {
    let on = SequencerEvent::NoteOn { note_freq: 440.0f32.to_bits(), velocity: 1.0f32.to_bits() };
    for s in ALL_STAGES {
        assert_eq!(envelope_stage_after(s, &on), AdsrState::Attack);
        assert_eq!(envelope_stage_after(s, &SequencerEvent::NoteOff), AdsrState::Release);
        assert_eq!(envelope_stage_after(s, &SequencerEvent::EndOfPattern), s);
        assert_eq!(envelope_stage_after(s, &SequencerEvent::NoOp), s);
        assert_eq!(
            envelope_stage_after(s, &SequencerEvent::ParamChange(SynthParameter::Sustain(0.5f32.to_bits()))),
            s
        );
    }
}

#[test]
fn fresh_voice_settings() {
    let p = VoiceParams::new();
    assert_eq!(p.waveform, Waveform::Sawtooth);
    assert_eq!(f32::from_bits(p.note_freq), 0.0);
    assert_eq!(f32::from_bits(p.cutoff), 1000.0);
    assert_eq!(f32::from_bits(p.resonance), 0.1);
    assert_eq!(f32::from_bits(p.overdrive), 1.0);
    assert_eq!(f32::from_bits(p.attack), 0.01);
    assert_eq!(f32::from_bits(p.decay), 0.1);
    assert_eq!(f32::from_bits(p.sustain), 0.7);
    assert_eq!(f32::from_bits(p.release), 0.2);
}

#[test]
fn each_event_sets_its_own_setting() {
    let p = VoiceParams::new();
    let on = SequencerEvent::NoteOn { note_freq: 220.0f32.to_bits(), velocity: 0.3f32.to_bits() };
    assert_eq!(p.after_event(&on), VoiceParams { note_freq: 220.0f32.to_bits(), ..p });
    let set = |q: SynthParameter| p.after_event(&SequencerEvent::ParamChange(q));
    assert_eq!(set(SynthParameter::Waveform(Waveform::Square)), VoiceParams { waveform: Waveform::Square, ..p });
    assert_eq!(set(SynthParameter::Cutoff(7)), VoiceParams { cutoff: 7, ..p });
    assert_eq!(set(SynthParameter::Resonance(8)), VoiceParams { resonance: 8, ..p });
    assert_eq!(set(SynthParameter::Overdrive(9)), VoiceParams { overdrive: 9, ..p });
    assert_eq!(set(SynthParameter::Attack(10)), VoiceParams { attack: 10, ..p });
    assert_eq!(set(SynthParameter::Decay(11)), VoiceParams { decay: 11, ..p });
    assert_eq!(set(SynthParameter::Sustain(12)), VoiceParams { sustain: 12, ..p });
    assert_eq!(set(SynthParameter::Release(13)), VoiceParams { release: 13, ..p });
    assert_eq!(p.after_event(&SequencerEvent::NoteOff), p);
    assert_eq!(p.after_event(&SequencerEvent::EndOfPattern), p);
    assert_eq!(p.after_event(&SequencerEvent::NoOp), p);
}
