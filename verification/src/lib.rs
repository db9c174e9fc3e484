//! Launch and configuration decisions for running the dprint language server
//! inside an editor workspace.
//!
//! The host of the extension owns everything that touches the outside world:
//! the user's settings, the files of the worktree, its own Node runtime. This
//! library decides. [`DprintExtension`] says which files it wants to look at,
//! takes what the host could read of them as a [`Worktree`], and answers
//! with a [`Launch`] for the server or with the JSON configuration to forward
//! to it. Each answer is proved to be the function of its inputs that
//! [`resolution`] writes down, and [`laws`] proves what follows from those
//! definitions for every input.

pub mod command;
pub mod configuration;
pub mod extension;
pub mod json;
pub mod laws;
pub mod manifest;
pub mod paths;
pub mod resolution;
pub mod settings;
pub mod worktree;

pub use command::{Command, Launch, NodeLaunch};
pub use configuration::FormatterOptions;
pub use extension::DprintExtension;
pub use settings::{BinarySettings, LspSettings};
pub use worktree::Worktree;
