//! Audio capture bookkeeping, recording file naming, WAV encoding and the
//! framing around echo cancellation.

pub mod aec;
pub mod capture;
pub mod domain;
pub mod manager;
pub mod storage;
pub mod system;
pub mod wav;
