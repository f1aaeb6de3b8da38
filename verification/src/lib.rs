//! Package managers of JavaScript repositories.
//!
//! The library decides which package manager a repository uses, which globs make up its
//! workspace, which lockfile belongs to it and how arguments are handed to it. Reading files and
//! running binaries is left to the caller, who hands in what was read as plain values.

pub mod bun;
pub mod detection;
pub mod error;
pub mod grammar;
pub mod lockfile;
pub mod manager;
pub mod npm;
pub mod package_json;
pub mod paths;
pub mod pnpm;
pub mod settings;
pub mod source;
pub mod text;
pub mod version;
pub mod workspaces;
pub mod yarn;

pub use bun::BunVersion;
pub use detection::{Declaration, Detector, Detectors, Release};
pub use error::{Error, MissingWorkspaceError, NoPackageManager};
pub use lockfile::{loaded_lockfile, LockfileFormat, LockfileRequest};
pub use manager::PackageManager;
pub use npm::NpmVersion;
pub use package_json::{PackageJson, Workspaces};
pub use paths::AbsoluteSystemPathBuf;
pub use pnpm::PnpmVersion;
pub use settings::{LinkSetting, LinkSettings, PatchFormat};
pub use source::{NamedSource, SourceSpan, Spanned};
pub use version::Version;
pub use workspaces::{WorkspaceGlobs, WorkspaceSources};
pub use yarn::YarnVersion;
