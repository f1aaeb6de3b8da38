//! What depends on the settings of a package manager: which packages it links, and how its
//! patches are pruned.

use vstd::prelude::*;

use crate::manager::PackageManager;
use crate::detection::Release;
use crate::pnpm::PnpmVersion;

verus! {

/// Where it is set whether packages of the workspace are linked.
#[derive(Debug, PartialEq, Eq, Clone, Copy, Structural)]
pub enum LinkSetting {
    /// They always are.
    Always,
    /// In the settings of Berry.
    Berry,
    /// In the settings of pnpm, which depend on its version.
    Pnpm(PnpmVersion),
}

/// What the settings of Berry and of pnpm say about linking packages of the workspace.
#[derive(Debug, PartialEq, Eq, Clone, Copy, Structural)]
pub struct LinkSettings {
    pub berry: bool,
    pub pnpm: bool,
}

/// The place where a package manager notes down which dependencies are patched.
#[derive(Debug, PartialEq, Eq, Clone, Copy, Structural)]
pub enum PatchFormat {
    /// In the resolutions.
    Yarn,
    /// In the patched dependencies of pnpm.
    Pnpm,
}

impl PackageManager {
    /// Where it is set whether packages of the workspace are linked.
    pub open spec fn link_setting_of(self) -> LinkSetting {
        match self {
            PackageManager::Berry => LinkSetting::Berry,
            PackageManager::Pnpm9 => LinkSetting::Pnpm(PnpmVersion::Pnpm9),
            PackageManager::Pnpm => LinkSetting::Pnpm(PnpmVersion::Pnpm7And8),
            PackageManager::Pnpm6 => LinkSetting::Pnpm(PnpmVersion::Pnpm6),
            PackageManager::Yarn | PackageManager::Bun | PackageManager::Npm => LinkSetting::Always,
        }
    }

    /// Returns where it is set whether packages of the workspace are linked.
    pub fn link_setting(&self) -> (setting: LinkSetting)
        ensures
            setting == self.link_setting_of(),
            setting is Always <==> self is Npm || self is Yarn || self is Bun,
            setting is Berry <==> self is Berry,
            setting == LinkSetting::Pnpm(PnpmVersion::Pnpm6) <==> self is Pnpm6,
            setting == LinkSetting::Pnpm(PnpmVersion::Pnpm7And8) <==> self is Pnpm,
            setting == LinkSetting::Pnpm(PnpmVersion::Pnpm9) <==> self is Pnpm9,
    {
        match PnpmVersion::of_manager(self) {
            Some(version) => LinkSetting::Pnpm(version),
            None => if *self == PackageManager::Berry {
                LinkSetting::Berry
            } else {
                LinkSetting::Always
            },
        }
    }

    /// Returns whether or not the package manager will select a package in the workspace as a
    /// dependency if the `workspace:` protocol isn't used. For example if a package in the
    /// workspace has `"lib": "1.2.3"` and there's a package in the workspace with the name of
    /// `lib` and version `1.2.3` if this is true, then the local `lib` package will be used where
    /// `false` would use a `lib` package from the registry.
    pub fn link_workspace_packages(&self, settings: &LinkSettings) -> (linked: bool)
        ensures
            linked == match self.link_setting_of() {
                LinkSetting::Always => true,
                LinkSetting::Berry => settings.berry,
                LinkSetting::Pnpm(_) => settings.pnpm,
            },
            self is Npm || self is Yarn || self is Bun ==> linked,
            self is Berry ==> linked == settings.berry,
            self is Pnpm || self is Pnpm6 || self is Pnpm9 ==> linked == settings.pnpm,
    {
        match self.link_setting() {
            LinkSetting::Always => true,
            LinkSetting::Berry => settings.berry,
            LinkSetting::Pnpm(_) => settings.pnpm,
        }
    }

    /// Whether the manager has a concept of patches.
    pub open spec fn patches_dependencies(self) -> bool {
        self is Berry || self.is_pnpm()
    }

    /// Returns whether the manager has a concept of patches.
    pub fn has_patches(&self) -> (has: bool)
        ensures
            has == self.patches_dependencies(),
            has <==> !(self is Npm || self is Yarn || self is Bun),
    {
        !matches!(self, PackageManager::Yarn | PackageManager::Npm | PackageManager::Bun)
    }

    /// Decides in which format the patched packages are pruned from a `package.json`. Bun, npm and
    /// the first version of Yarn have no concept of patches.
    pub fn prune_patched_packages(&self) -> (format: PatchFormat)
        requires
            self.patches_dependencies(),
        ensures
            format == if self is Berry {
                PatchFormat::Yarn
            } else {
                PatchFormat::Pnpm
            },
            format is Yarn <==> self is Berry,
            format is Pnpm <==> self is Pnpm || self is Pnpm6 || self is Pnpm9,
    {
        match self {
            PackageManager::Berry => PatchFormat::Yarn,
            _ => PatchFormat::Pnpm,
        }
    }
}

/// The managers that have settings of their own on linking are those that have a concept of
/// patches; each version of pnpm goes by the settings of that version.
pub proof fn lemma_settings_go_with_patches(manager: PackageManager, version: PnpmVersion)
    ensures
        manager.patches_dependencies() <==> !(manager is Npm || manager is Yarn || manager is Bun),
        manager.link_setting_of() is Always <==> !manager.patches_dependencies(),
        manager.link_setting_of() is Berry <==> manager is Berry,
        manager.link_setting_of() == LinkSetting::Pnpm(version) <==> manager
            == version.manager_of(),
{
}

} // verus!
