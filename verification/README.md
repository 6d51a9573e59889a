# tumburu

Control logic of a small subtractive synthesizer voice, verified with Verus.

- `src/sequencer.rs`: the bounded, sample-accurate event sequencer.
- `src/envelope.rs`: the attack-decay-sustain-release stage machine.
- `src/synth.rs`: voice parameters and how events change a voice's settings and envelope stage.
- `app/`: the host program. It holds the floating-point signal path (oscillator,
  filter, envelope level, saturation) and plays or renders a demonstration pattern.
