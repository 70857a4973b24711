//! Verified core of a local push-to-talk dictation tool: the dictation state
//! machine, configuration defaults, model and runtime bookkeeping, text
//! clean-up before insertion, and the per-state tray presentation.
pub mod app;
pub mod archive;
pub mod asr;
pub mod config;
pub mod inject;
pub mod listing;
pub mod model;
pub mod overlay;
pub mod paths;
pub mod runtime;
pub mod tray;
pub mod text;
