//! What is particular to Bun.

use vstd::prelude::*;

use crate::detection::Release;
use crate::manager::PackageManager;

verus! {

pub const LOCKFILE: &'static str = "bun.lock";

/// The versions of Bun, which are all treated alike.
#[derive(Debug, PartialEq, Eq, Clone, Copy, Structural)]
pub struct BunVersion;

impl Release for BunVersion {
    open spec fn manager_of(&self) -> PackageManager {
        PackageManager::Bun
    }

    fn manager(&self) -> (manager: PackageManager) {
        PackageManager::Bun
    }
}

} // verus!
