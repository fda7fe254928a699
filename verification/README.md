# voice_plugin

Local speech-to-text and text-to-speech for Tauri desktop apps, run on an
app-local Python runtime (MLX Whisper and Kokoro workers), with a
record-then-transcribe pipeline on top of the recorder plugin.

The crate is split in two:

- `src/` is the library, verified with Verus: the readiness checks and how
  they are summed up, the lifecycle of the STT and TTS engines (startup
  preload, downloads, lost workers), the bootstrap plan of the Python
  environment, validation of transcription and synthesis requests, the worker
  request lines and how their replies are read, the pipeline's decisions, and
  the plugin's error type with its stable wire form. Each public function
  states its result in `ensures`; the laws that span several functions are
  public proof functions (`law_*`).
- `app/` is the Tauri side: the two plugins (`stt` and `voice`), their
  commands, the processes and files they touch, events, and the pass-through
  to the recorder plugin. It hands the library plain values and acts on what
  comes back.

Calls into `serde_json` and a few `std` functions (the clock, `Path::extension`)
stand behind small trusted wrappers in `src/json.rs`, `src/clock.rs`,
`src/text.rs`, `src/tts.rs` and `src/error.rs`, each with a doc comment saying
what its contract claims.
