//! Live voice capture: a bounded capture session with auto-stop, the hand-off
//! of finished recordings to a single background worker, snapshot naming and
//! format, model selection, and the clean-up of recognised text.

pub mod error;
pub mod capture;
pub mod buffer;
pub mod queue;
pub mod worker;
pub mod text;
pub mod cache;
pub mod postprocess;
pub mod models;
pub mod setup;
pub mod types;
