//! Core logic of a clipboard viewer: log timestamps, the rule that decides
//! whether clipboard text is safe to show, and the polling state machine that
//! notices clipboard changes.

pub mod clipboard;
pub mod monitor;
pub mod text;
pub mod timestamp;
