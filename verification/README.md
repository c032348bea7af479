# daleth

Control logic of Daleth, an additive synthesizer whose voices are sines shaped
by "common envelopes", with its contracts proved by Verus.

- `src/adsr.rs`: the phase machine of an ADSR envelope (which level change a
  step makes, which comparison follows it, how the phase moves on).
- `src/notes.rs`: monophonic note tracking with last-note priority, and the
  opening and closing of the envelope gates.
- `src/tasks.rs`: what the preset-loading background tasks do to the voices
  and to the remembered preset path.
- `src/knob.rs`: the integer parameter knob.
- `src/presets.rs`: collecting the presets of a file and its status message.
- `src/table.rs`: the samples a wavetable lookup reads.

`app/` holds the plugin itself: the f32 signal path (envelopes, oscillators,
slew limiters), file and dialog I/O, JSON presets, and the editor.
