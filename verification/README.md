# rachaels_transcriber

The verified core of an offline audio transcriber.

- `src/` is the library, proved correct against its contracts: the model registry and where
  model files are stored (`config`, `desktop_config`, `download_models`,
  `commands`), the plan for transcribing long audio in overlapping chunks and
  the merging of their segments (`transcript`), the recorder's capture
  buffers and the cutting of stretches out of audio (`audio`), the WebRTC
  voice-activity detector and its frame counting (`detector`, `vad`), the
  statuses and replies around a file transcription (`status`), the first-run
  setup dialog (`setup`), and the decisions of the loops that download a
  model (`download_models::download_step`), decode an audio file
  (`decoding`) and poll a live recording window by window (`recording`).
  Answers of the platform (whether a file exists, where the data directory
  lies) come through `platform` as values that record what was asked; the
  functions that consult the platform return those values with their
  results, so each result is tied to the lookup it came from.
- `app/` is the command-line program around it: reading and decoding audio
  files, down-mixing and resampling, speech recognition, microphone capture,
  and the network and file work of model downloads. These work on
  floating-point audio or on the network and file system, so they are
  ordinary Rust; each loop there performs the actions that the library's
  step functions choose.
- `tests/` exercises the library on concrete values.
