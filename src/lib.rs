//! A sandboxed view of a host directory: callers name files by relative,
//! slash-separated paths, which are checked and resolved under a fixed root,
//! with a readonly policy applied before anything reaches the host.
//!
//! - `path`: the lexical sandbox check and how a path joins a root.
//! - `error`: the error taxonomy, its messages and wrapped causes.
//! - `options`: the flags a file is opened with.
//! - `filesystem`: the root, its readonly policy, and where each operation
//!   may reach on the host.
pub mod error;
pub mod filesystem;
pub mod options;
pub mod path;

pub use error::{EnvVarFailure, ErrorCause, GameError, GameResult};
pub use filesystem::{Filesystem, Metadata, RootModel, SystemType};
pub use options::OpenOptions;
pub use path::{is_sandboxed_path, resolve_path};
