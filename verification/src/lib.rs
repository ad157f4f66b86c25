//! A logging back-end: per-target level filtering and two deterministic
//! renderers (a colorized human form and a single-line machine form).
//!
//! The core is a pure value: a builder assembles the configuration, which is
//! finalized into an immutable [`Dispatcher`]. The process-wide "install
//! exactly once" step is modeled by [`Registry`]; the thin unverified shell
//! around this library maps it onto the real logging facade.

pub mod config;
pub mod laws;
pub mod level;
pub mod record;
pub mod render;
pub mod table;
pub mod target;

pub use config::ndjson;
pub use config::pretty;
pub use config::start;
pub use config::wasm;
pub use config::with_level;
pub use config::Dispatcher;
pub use config::Femme;
pub use config::Logger;
pub use config::Registry;
pub use config::SetLoggerError;
pub use level::Level;
pub use level::LevelFilter;
pub use record::Record;
pub use render::format_kv_pairs;
pub use render::write_ndjson;
pub use render::write_pretty;
