//! What is read of a `package.json`.

use vstd::prelude::*;

use crate::source::Spanned;

verus! {

/// The fields of a `package.json` that decide about its package manager.
#[derive(Debug, PartialEq, Eq)]
pub struct PackageJson {
    /// The `packageManager` field.
    pub package_manager: Option<Spanned>,
    /// The entries of the `resolutions` field, in the order in which they are walked.
    pub resolutions: Option<Vec<(String, String)>>,
}

impl Default for PackageJson {
    fn default() -> (package_json: Self)
        ensures
            package_json.package_manager is None,
            package_json.resolutions is None,
    {
        PackageJson { package_manager: None, resolutions: None }
    }
}

/// The `workspaces` field: a list of globs, or an object with such a list under `packages`.
#[derive(Debug, PartialEq, Eq, Clone)]
pub enum Workspaces {
    TopLevel(Vec<String>),
    Nested { packages: Vec<String> },
}

impl Workspaces {
    /// The globs of the field, in either form.
    pub open spec fn globs(self) -> Vec<String> {
        match self {
            Workspaces::TopLevel(packages) => packages,
            Workspaces::Nested { packages } => packages,
        }
    }

    /// Returns the globs of the field.
    pub fn as_ref(&self) -> (globs: &[String])
        ensures
            globs@ == self.globs()@,
            self matches Workspaces::TopLevel(packages) ==> globs@ == packages@,
            self matches Workspaces::Nested { packages } ==> globs@ == packages@,
    {
        match self {
            Workspaces::TopLevel(packages) => packages.as_slice(),
            Workspaces::Nested { packages } => packages.as_slice(),
        }
    }
}

impl From<Workspaces> for Vec<String> {
    fn from(value: Workspaces) -> (globs: Self) {
        match value {
            Workspaces::TopLevel(packages) => packages,
            Workspaces::Nested { packages } => packages,
        }
    }
}

impl vstd::std_specs::convert::FromSpecImpl<Workspaces> for Vec<String> {
    open spec fn obeys_from_spec() -> bool {
        true
    }

    open spec fn from_spec(value: Workspaces) -> Self {
        value.globs()
    }
}

/// A list of globs means the same at the top level and nested under `packages`.
pub proof fn lemma_nesting_does_not_matter(packages: Vec<String>)
    ensures
        (Workspaces::TopLevel(packages)).globs() == packages,
        (Workspaces::Nested { packages }).globs() == packages,
{
}

} // verus!
