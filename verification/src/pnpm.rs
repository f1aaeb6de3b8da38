//! What is particular to pnpm.

use vstd::prelude::*;

use crate::detection::Release;
use crate::manager::PackageManager;
use crate::text;
use crate::version::Version;

verus! {

pub const LOCKFILE: &'static str = "pnpm-lock.yaml";

pub const WORKSPACE_CONFIGURATION_PATH: &'static str = "pnpm-workspace.yaml";

/// The versions of pnpm that are treated differently.
#[derive(Debug, PartialEq, Eq, Clone, Copy, Structural)]
pub enum PnpmVersion {
    Pnpm6,
    Pnpm7And8,
    Pnpm9,
}

impl Release for PnpmVersion {
    open spec fn manager_of(&self) -> PackageManager {
        match self {
            PnpmVersion::Pnpm6 => PackageManager::Pnpm6,
            PnpmVersion::Pnpm7And8 => PackageManager::Pnpm,
            PnpmVersion::Pnpm9 => PackageManager::Pnpm9,
        }
    }

    fn manager(&self) -> (manager: PackageManager) {
        match self {
            PnpmVersion::Pnpm6 => PackageManager::Pnpm6,
            PnpmVersion::Pnpm7And8 => PackageManager::Pnpm,
            PnpmVersion::Pnpm9 => PackageManager::Pnpm9,
        }
    }
}

/// The version of pnpm that a manager stands for; `None` for another manager.
pub open spec fn pnpm_version_of(manager: PackageManager) -> Option<PnpmVersion> {
    match manager {
        PackageManager::Pnpm6 => Some(PnpmVersion::Pnpm6),
        PackageManager::Pnpm => Some(PnpmVersion::Pnpm7And8),
        PackageManager::Pnpm9 => Some(PnpmVersion::Pnpm9),
        _ => None,
    }
}

impl PnpmVersion {
    /// The version of pnpm that `manager` stands for; `None` if it is not pnpm.
    pub fn of_manager(manager: &PackageManager) -> (version: Option<PnpmVersion>)
        ensures
            version == pnpm_version_of(*manager),
            version is None <==> !(manager is Pnpm6 || manager is Pnpm || manager is Pnpm9),
            version == Some(PnpmVersion::Pnpm6) <==> manager is Pnpm6,
            version == Some(PnpmVersion::Pnpm7And8) <==> manager is Pnpm,
            version == Some(PnpmVersion::Pnpm9) <==> manager is Pnpm9,
    {
        match manager {
            PackageManager::Pnpm6 => Some(PnpmVersion::Pnpm6),
            PackageManager::Pnpm => Some(PnpmVersion::Pnpm7And8),
            PackageManager::Pnpm9 => Some(PnpmVersion::Pnpm9),
            _ => None,
        }
    }
}

/// The globs that pnpm never looks into.
pub open spec fn default_exclusions() -> Seq<Seq<char>> {
    seq!["**/node_modules/**"@, "**/bower_components/**"@]
}

/// The globs that pnpm never looks into.
pub fn get_default_exclusions() -> (globs: Vec<String>)
    ensures
        text::texts(globs@) == default_exclusions(),
        globs@.len() == 2,
        globs@[0]@ == "**/node_modules/**"@,
        globs@[1]@ == "**/bower_components/**"@,
{
    let globs = text::owned(&["**/node_modules/**", "**/bower_components/**"]);
    assert(text::texts(globs@) =~= default_exclusions());
    proof {
        text::lemma_texts_are_taken_one_by_one(globs@);
    }
    globs
}

/// The manager that a pnpm of the given major version is.
pub open spec fn pnpm_of(major: int) -> PackageManager {
    if major < 7 {
        PackageManager::Pnpm6
    } else if major < 9 {
        PackageManager::Pnpm
    } else {
        PackageManager::Pnpm9
    }
}

/// Tells the versions of pnpm apart: up to 6, 7 and 8, and from 9 on.
pub fn detect_pnpm6_or_pnpm(version: &Version) -> (manager: PackageManager)
    ensures
        manager == pnpm_of(version.major as int),
        manager is Pnpm6 <==> version.major <= 6,
        manager is Pnpm <==> version.major == 7 || version.major == 8,
        manager is Pnpm9 <==> version.major >= 9,
{
    if version.major < 7 {
        PackageManager::Pnpm6
    } else if version.major < 9 {
        PackageManager::Pnpm
    } else {
        PackageManager::Pnpm9
    }
}

/// A version of pnpm is the one that its manager stands for.
pub proof fn lemma_pnpm_version_of_its_manager(version: PnpmVersion)
    ensures
        pnpm_version_of(version.manager_of()) == Some(version),
{
}

/// pnpm is told apart at the major versions 7 and 9.
pub proof fn lemma_pnpm_changes_at_seven_and_nine(major: int)
    ensures
        pnpm_of(major) is Pnpm6 <==> major <= 6,
        pnpm_of(major) is Pnpm <==> 7 <= major <= 8,
        pnpm_of(major) is Pnpm9 <==> major >= 9,
{
}

/// No later version of pnpm is treated like an earlier one again.
pub proof fn lemma_pnpm_does_not_go_back(earlier: int, later: int)
    requires
        earlier <= later,
    ensures
        pnpm_of(later) is Pnpm6 ==> pnpm_of(earlier) is Pnpm6,
        pnpm_of(earlier) is Pnpm9 ==> pnpm_of(later) is Pnpm9,
        pnpm_of(earlier) is Pnpm && pnpm_of(later) is Pnpm ==> forall|between: int|
            earlier <= between <= later ==> #[trigger] pnpm_of(between) is Pnpm,
{
}

/// The releases of pnpm are its three managers.
pub proof fn lemma_releases_of_pnpm()
    ensures
        PnpmVersion::Pnpm6.manager_of() is Pnpm6,
        PnpmVersion::Pnpm7And8.manager_of() is Pnpm,
        PnpmVersion::Pnpm9.manager_of() is Pnpm9,
{
}

/// Only the managers of pnpm stand for a version of it, and each for another one.
pub proof fn lemma_versions_of_pnpm_managers(one: PackageManager, other: PackageManager)
    ensures
        pnpm_version_of(one) is Some <==> one is Pnpm6 || one is Pnpm || one is Pnpm9,
        pnpm_version_of(one) matches Some(version) ==> version.manager_of() == one,
        pnpm_version_of(one) is Some && pnpm_version_of(one) == pnpm_version_of(other) ==> one
            == other,
{
}

} // verus!
