# scribe

The logic of Scribe, a macOS meeting recorder and dictation tool, as a Verus
library: Verus proves the functions in `src/` against their
`requires`/`ensures` contracts. The traits that callers implement (the
transcriber, echo canceller, capture backends and sessions, polish helper)
may name which answers an implementation gives; code generic over them is
proved to hand each answer on as its contract says.

- `src/domain.rs` — the meeting lifecycle state machine, ids, settings.
- `src/rules.rs`, `src/nudges.rs` — speaking metrics and the live-nudge
  pipeline with its throttling.
- `src/transcription.rs`, `src/pipeline.rs` — transcript segments, merging
  the microphone and system-audio tracks, retries, and the decisions of the
  meeting and dictation pipelines.
- `src/audio/` — WAV encoding and decoding (through `hound`), echo
  cancellation framing, recording bookkeeping, storage paths, capture and
  helper-process summaries.
- `src/dictation/` — hotkey and Fn-tap timing, dictation capture, text
  injection order, paste-target rules, polish and polish-selection results.
- `src/history.rs` — meeting history items, pages and the detail view.
- `src/meeting_detection.rs`, `src/permissions.rs`, `src/media_import.rs`,
  `src/path_detection.rs`, `src/commands.rs` — call detection, onboarding
  permissions, converter tools, model discovery, and the command layer's
  validation and paging rules.
- `src/aec_offline.rs` — the offline echo-cancellation tool's argument
  parsing and framing.

`app/` is the unverified host: files, processes, native audio and desktop
APIs, floating-point signal measures, serialisation, and `main`.
`tests/` runs the library on concrete values.
