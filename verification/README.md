# ilo_toki

A toki pona speech synthesizer. The verified library (`src/`) holds the
parts that decide things:

- `syl`: the syllable reader (text to syllables and word breaks), the
  one-byte encoding of a syllable, and the written forms and error messages;
- `plan`: which sounds a sequence of syllables is spoken as;
- `rng`: the fixed-seed noise generator;
- `wav`: the WAV header;
- `segment`: the sound names of the segment-based synthesizer.

`app/` holds the program around it: argument handling, file I/O, the
floating-point waveform synthesis, and the wasm-bindgen export.
