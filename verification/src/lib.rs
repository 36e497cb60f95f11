//! Scribe's verified core: the meeting lifecycle, dictation hotkey timing,
//! call-prompt state machine, live speaking nudges, recording file naming,
//! WAV framing for echo cancellation, and the small text rules around them.

pub mod text;
pub mod aec_offline;
pub mod analysis;
pub mod commands;
pub mod history;
pub mod domain;
pub mod dictation;
pub mod media_import;
pub mod meeting_detection;
pub mod paths;
pub mod path_detection;
pub mod rules;
pub mod transcription;
pub mod nudges;
pub mod permissions;
pub mod pipeline;
pub mod audio;
