//! Interactive session engine of a terminal log viewer.
//!
//! A session shows a buffer of text lines and accepts commands that are run
//! by an embedded script interpreter. This crate holds the input-mode state
//! machine, the rule that lays a session out on a frame, the hosting contract
//! of the interpreter, and the small decisions taken at startup. Terminal I/O
//! and file access are left to the program that uses it.

pub mod app;
pub mod config;
pub mod host;
pub mod key;
pub mod render;
pub mod session;
pub mod text;

pub use app::{App, Control};
pub use config::{Config, Loaded, StoredConfig};
pub use host::ScriptHost;
pub use key::{InputEvent, Key, KeyKind};
pub use render::{compose, ui, Area, Border, LogPanel, PromptPanel, Screen};
pub use session::{InputMode, Session};
