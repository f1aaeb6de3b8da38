//! What is particular to npm.

use vstd::prelude::*;

use crate::detection::Release;
use crate::manager::PackageManager;

verus! {

pub const LOCKFILE: &'static str = "package-lock.json";

/// The versions of npm, which are all treated alike.
#[derive(Debug, PartialEq, Eq, Clone, Copy, Structural)]
pub struct NpmVersion;

impl Release for NpmVersion {
    open spec fn manager_of(&self) -> PackageManager {
        PackageManager::Npm
    }

    fn manager(&self) -> (manager: PackageManager) {
        PackageManager::Npm
    }
}

} // verus!
