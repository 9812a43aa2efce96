//! Materialises per-host configuration files from templates.
//!
//! The library holds the logic: splitting a template into frontmatter and
//! body, the layered rendering context, the warning banner, the clipboard
//! command, the repository-sync and apply-workflow decisions. Reading files,
//! running processes and talking to git are left to the caller.

pub mod apply;
pub mod config;
pub mod errors;
pub mod frontmatter;
pub mod json;
pub mod module;
pub mod repo_config;
pub mod syntax;
pub mod template;
pub mod text;

pub use apply::{accepts, confirmed, step, ApplyAction, ApplyEvent, ApplyState};
pub use config::{classify_platform, get_text, platform_from_name, Config, ConfigTree, HostConfig, Platform};
pub use errors::{position_of, Error, ErrorKind};
pub use frontmatter::{split_frontmatter, SplitTemplate};
pub use module::{module_config_path, target_config_path, AfterCommitHook, Module};
pub use repo_config::{OpenOutcome, RepoConfig, SyncAction};
pub use template::{render_metadata, render_module_config, Template};
