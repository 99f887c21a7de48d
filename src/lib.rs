//! Configuration resolution and dispatch decisions for a document text and
//! metadata extraction engine.
//!
//! A caller hands in a loosely structured settings payload (every field
//! optional, enumerated values in several spellings) and this library turns it
//! into a fully populated [`config::PipelineConfig`], or an explicit
//! [`resolve::ConfigError`]. The extraction itself is performed by the engine;
//! [`dispatch`] decides how its outcome is reported.
pub mod config;
pub mod dispatch;
pub mod resolve;
pub mod settings;
pub mod vocab;
