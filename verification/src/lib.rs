//! Builds another package's binary from within a build: finds the package's
//! source, keeps fetched sources in a cache, and runs the toolchain on it in
//! an environment of its own. The library decides; the caller carries out.

pub mod bin_crate;
pub mod builder;
pub mod cache;
pub mod command;
pub mod environment;
pub mod error;
pub mod guarantees;
pub mod path;
pub mod registry;
pub mod sharing;
pub mod text;
pub mod workspace;

pub use crate::bin_crate::{Action, BinCrate, Event, Phase, ResolvedManifest};
pub use crate::builder::{Ambient, Builder, SourceSpec};
pub use crate::cache::{CacheKey, CacheRoot};
pub use crate::command::{Invocation, InvocationStyle, Output};
pub use crate::environment::EnvPolicy;
pub use crate::error::BuildError;
pub use crate::workspace::{Member, Package, Workspace};
