//! System-wide dictation: hotkey timing, Fn-key taps, capture bookkeeping,
//! transcript flattening, polish results, and injection decisions.

pub mod ax;
pub mod capture;
pub mod inject;
pub mod paste_target;
pub mod polish;
pub mod selection;
pub mod fn_tap;
pub mod hotkey;
