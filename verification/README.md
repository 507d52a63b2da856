# monochrome_audio

Native audio engine of the Monochrome Android app.

- `src/` is the verified playback core (Verus):
  - `player.rs`: `PlayerState`, the state machine behind every control request
    (load, play, pause, stop, seek, volume, speed, equalizer) and the audio
    callback's per-block decisions, with its abstract model `PlayerModel` and
    the laws proved over it;
  - `decoder.rs`: `Decoder`, the bookkeeping of an open track (duration, end
    of track) around opaque media handles, and the output channel layout;
  - `dsp.rs`: `DspPipeline`, the graphic equalizer's band configuration.
- `app/` holds what the library does not: audio output (cpal), FFmpeg
  decoding, the floating-point filters and sample processing, and the JNI
  entry points.
- `tests/` exercises the library on concrete values.
