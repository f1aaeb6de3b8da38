//! What is particular to Yarn, in its first version and as Berry.

use vstd::prelude::*;

use crate::detection::Release;
use crate::manager::PackageManager;
use crate::version::Version;

verus! {

pub const LOCKFILE: &'static str = "yarn.lock";

/// The versions of Yarn that are treated differently.
#[derive(Debug, PartialEq, Eq, Clone, Copy, Structural)]
pub enum YarnVersion {
    Yarn1,
    Berry,
}

impl Release for YarnVersion {
    open spec fn manager_of(&self) -> PackageManager {
        match self {
            YarnVersion::Yarn1 => PackageManager::Yarn,
            YarnVersion::Berry => PackageManager::Berry,
        }
    }

    fn manager(&self) -> (manager: PackageManager) {
        match self {
            YarnVersion::Yarn1 => PackageManager::Yarn,
            YarnVersion::Berry => PackageManager::Berry,
        }
    }
}

/// The manager that a Yarn of the given major version is: Berry from version 2 on.
pub open spec fn yarn_of(major: int) -> PackageManager {
    if major >= 2 {
        PackageManager::Berry
    } else {
        PackageManager::Yarn
    }
}

/// Tells Berry from the first version of Yarn.
pub fn detect_berry_or_yarn(version: &Version) -> (manager: PackageManager)
    ensures
        manager == yarn_of(version.major as int),
        manager is Berry <==> version.major >= 2,
        manager is Yarn <==> version.major <= 1,
{
    if version.major >= 2 {
        PackageManager::Berry
    } else {
        PackageManager::Yarn
    }
}

/// Every Yarn is the first version of it or Berry, and it is Berry if and only if its major version
/// is at least 2.
pub proof fn lemma_berry_from_two_on(major: int)
    ensures
        yarn_of(major) is Berry <==> major >= 2,
        yarn_of(major) is Yarn <==> major <= 1,
{
}

/// Once Yarn is Berry, no later version is the first one again.
pub proof fn lemma_yarn_stays_berry(earlier: int, later: int)
    requires
        earlier <= later,
        yarn_of(earlier) is Berry,
    ensures
        yarn_of(later) is Berry,
{
}

/// The releases of Yarn are the first version and Berry.
pub proof fn lemma_releases_of_yarn()
    ensures
        YarnVersion::Yarn1.manager_of() is Yarn,
        YarnVersion::Berry.manager_of() is Berry,
{
}

} // verus!
