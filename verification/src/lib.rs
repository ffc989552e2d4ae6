//! Core logic of a small tabbed browser shell.
//!
//! Two things are decided here and proved: where a line typed into the
//! address bar leads (`search`), and what a settings document does to the
//! rendering engine (`setting`, `defaults`, `toggle`, `engine`). Windows,
//! widgets, files and the engine itself are the caller's business.

pub mod defaults;
pub mod domain;
pub mod engine;
pub mod percent;
pub mod search;
pub mod setting;
pub mod text;
pub mod toggle;

pub use defaults::{default_settings, load_settings};
pub use engine::{apply_settings, EngineSettings, EngineTarget};
pub use search::process_search_input;
pub use setting::WebkitSettings;
pub use toggle::Toggle;
