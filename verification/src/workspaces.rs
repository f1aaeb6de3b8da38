//! The globs that make up a workspace.

use vstd::prelude::*;

use crate::error::{Error, MissingWorkspaceError};
use crate::manager::PackageManager;
use crate::package_json::Workspaces;
use crate::text;

verus! {

/// What the files of a repository say about the globs of its workspace.
#[derive(Debug, PartialEq, Eq)]
pub struct WorkspaceSources {
    /// The packages of `pnpm-workspace.yaml`; `None` if there are none.
    pub pnpm_workspace: Option<Vec<String>>,
    /// The `workspaces` of `package.json`: an error if the file cannot be read, `None` if it does
    /// not hold a valid field.
    pub package_json: Result<Option<Workspaces>, Error>,
}

/// The globs of a workspace.
#[derive(Debug, PartialEq, Eq)]
pub struct WorkspaceGlobs {
    pub raw_inclusions: Vec<String>,
    pub raw_exclusions: Vec<String>,
}

/// The error for a manager without workspaces.
pub open spec fn missing_workspace(manager: PackageManager) -> Error {
    Error::Workspace(MissingWorkspaceError { package_manager: manager })
}

/// The globs that are configured for `manager`, or why there are none.
pub open spec fn configured_globs(manager: PackageManager, sources: WorkspaceSources) -> Result<
    Vec<String>,
    Error,
> {
    if manager.is_pnpm() {
        match sources.pnpm_workspace {
            Some(globs) => Ok(globs),
            None => Err(missing_workspace(manager)),
        }
    } else {
        match sources.package_json {
            Ok(Some(workspaces)) => if workspaces.globs()@.len() == 0 {
                Err(missing_workspace(manager))
            } else {
                Ok(workspaces.globs())
            },
            Ok(None) => Err(missing_workspace(manager)),
            Err(error) => Err(error),
        }
    }
}

/// The globs without a `!` in front, in their order.
pub open spec fn inclusions(globs: Seq<Seq<char>>) -> Seq<Seq<char>>
    decreases globs.len(),
{
    if globs.len() == 0 {
        Seq::empty()
    } else {
        match text::stripped(globs.last(), '!') {
            Some(_) => inclusions(globs.drop_last()),
            None => inclusions(globs.drop_last()).push(globs.last()),
        }
    }
}

/// What stands behind the `!` of the other globs, in their order.
pub open spec fn exclusions(globs: Seq<Seq<char>>) -> Seq<Seq<char>>
    decreases globs.len(),
{
    if globs.len() == 0 {
        Seq::empty()
    } else {
        match text::stripped(globs.last(), '!') {
            Some(exclusion) => exclusions(globs.drop_last()).push(exclusion),
            None => exclusions(globs.drop_last()),
        }
    }
}

/// What is excluded because of an inclusion in a workspace of Yarn.
pub open spec fn node_modules_in(inclusion: Seq<char>) -> Seq<char> {
    inclusion + "/node_modules/**"@
}

/// Everything that `manager` excludes in a workspace with the given globs: what is configured,
/// what it always excludes, and for Yarn the `node_modules` in every inclusion.
pub open spec fn all_exclusions(manager: PackageManager, globs: Seq<Seq<char>>) -> Seq<Seq<char>> {
    let fixed = exclusions(globs) + manager.default_exclusion_texts();
    if manager is Yarn {
        fixed + inclusions(globs).map_values(|inclusion: Seq<char>| node_modules_in(inclusion))
    } else {
        fixed
    }
}

/// Splits `globs` into inclusions and exclusions.
fn partition(globs: Vec<String>) -> (parts: (Vec<String>, Vec<String>))
    ensures
        text::texts(parts.0@) == inclusions(text::texts(globs@)),
        text::texts(parts.1@) == exclusions(text::texts(globs@)),
{
    let mut included: Vec<String> = Vec::new();
    let mut excluded: Vec<String> = Vec::new();
    let ghost all = text::texts(globs@);
    let mut i: usize = 0;
    while i < globs.len()
        invariant
            i <= globs@.len(),
            all == text::texts(globs@),
            text::texts(included@) == inclusions(all.take(i as int)),
            text::texts(excluded@) == exclusions(all.take(i as int)),
        decreases globs@.len() - i,
    {
        let ghost included_before = included@;
        let ghost excluded_before = excluded@;
        assert(all.take(i + 1).drop_last() =~= all.take(i as int));
        assert(all.take(i + 1).last() == globs@[i as int]@);
        match text::strip_char_prefix(globs[i].as_str(), '!') {
            Some(exclusion) => {
                excluded.push(exclusion);
                assert(text::texts(excluded@) =~= text::texts(excluded_before).push(exclusion@));
            },
            None => {
                let glob = globs[i].clone();
                included.push(glob);
                assert(text::texts(included@) =~= text::texts(included_before).push(glob@));
            },
        }
        i += 1;
    }
    assert(all.take(i as int) =~= all);
    (included, excluded)
}

impl WorkspaceGlobs {
    /// The globs as they are given. That a matcher can be built from them is for [`Self::checked`].
    pub fn new(inclusions: Vec<String>, exclusions: Vec<String>) -> (globs: WorkspaceGlobs)
        ensures
            globs.raw_inclusions == inclusions,
            globs.raw_exclusions == exclusions,
    {
        WorkspaceGlobs { raw_inclusions: inclusions, raw_exclusions: exclusions }
    }

    /// The globs, once a matcher has been built from them; `built` holds what kept it from being
    /// built.
    pub fn checked(self, built: Result<(), String>) -> (checked: Result<WorkspaceGlobs, Error>)
        ensures
            checked == match built {
                Ok(_) => Ok::<WorkspaceGlobs, Error>(self),
                Err(cause) => Err(Error::WorkspaceGlob(cause)),
            },
            checked is Ok <==> built is Ok,
            checked matches Ok(globs) ==> globs == self,
            checked matches Err(error) ==> error == Error::WorkspaceGlob(built->Err_0),
    {
        match built {
            Ok(_) => Ok(self),
            Err(cause) => Err(Error::WorkspaceGlob(cause)),
        }
    }
}

impl PackageManager {
    /// Returns the set of globs for the workspace.
    pub fn get_workspace_globs(&self, sources: WorkspaceSources) -> (found: Result<
        WorkspaceGlobs,
        Error,
    >)
        ensures
            match configured_globs(*self, sources) {
                Ok(configured) => {
                    &&& found matches Ok(globs)
                    &&& text::texts(globs.raw_inclusions@) == inclusions(
                        text::texts(configured@),
                    )
                    &&& text::texts(globs.raw_exclusions@) == all_exclusions(
                        *self,
                        text::texts(configured@),
                    )
                },
                Err(error) => found == Err::<WorkspaceGlobs, Error>(error),
            },
            self is Pnpm || self is Pnpm6 || self is Pnpm9 ==> {
                &&& found is Ok <==> sources.pnpm_workspace is Some
                &&& found matches Err(error) ==> error == Error::Workspace(
                    MissingWorkspaceError { package_manager: *self },
                )
            },
            !(self is Pnpm || self is Pnpm6 || self is Pnpm9) ==> match sources.package_json {
                Ok(Some(Workspaces::TopLevel(packages))) => found is Ok <==> packages@.len() >= 1,
                Ok(Some(Workspaces::Nested { packages })) => found is Ok <==> packages@.len() >= 1,
                Ok(None) => found is Err,
                Err(error) => found is Err && found->Err_0 == error,
            },
            found matches Err(error) ==> sources.package_json is Ok ==> error == Error::Workspace(
                MissingWorkspaceError { package_manager: *self },
            ),
            found matches Ok(globs) ==> match (
                *self,
                sources.pnpm_workspace,
                sources.package_json,
            ) {
                (
                    PackageManager::Pnpm | PackageManager::Pnpm6 | PackageManager::Pnpm9,
                    Some(packages),
                    _,
                )
                | (
                    PackageManager::Npm
                    | PackageManager::Yarn
                    | PackageManager::Berry
                    | PackageManager::Bun,
                    _,
                    Ok(
                        Some(
                            Workspaces::TopLevel(packages)
                            | Workspaces::Nested { packages },
                        ),
                    ),
                ) => {
                    &&& text::texts(globs.raw_inclusions@) == inclusions(text::texts(packages@))
                    &&& globs.raw_inclusions@.len() <= packages@.len()
                },
                _ => false,
            },
    {
        let (included, mut excluded) = match self.get_configured_workspace_globs(sources) {
            Ok(globs) => globs,
            Err(error) => return Err(error),
        };
        let ghost configured = excluded@;
        let mut defaults = self.get_default_exclusions();
        let ghost fixed = defaults@;
        excluded.append(&mut defaults);
        assert(text::texts(excluded@) =~= text::texts(configured) + text::texts(fixed));

        // Yarn appends node_modules to every other glob specified
        if *self == PackageManager::Yarn {
            let ghost before = excluded@;
            let mut i: usize = 0;
            while i < included.len()
                invariant
                    i <= included@.len(),
                    excluded@.len() == before.len() + i,
                    forall|j: int| 0 <= j < before.len() ==> excluded@[j] == #[trigger] before[j],
                    forall|j: int|
                        0 <= j < i ==> #[trigger] excluded@[before.len() + j]@ == node_modules_in(
                            included@[j]@,
                        ),
                decreases included@.len() - i,
            {
                let mut exclusion = included[i].clone();
                exclusion.append("/node_modules/**");
                excluded.push(exclusion);
                i += 1;
            }
            proof {
                let added = text::texts(included@).map_values(
                    |inclusion: Seq<char>| node_modules_in(inclusion),
                );
                let whole = text::texts(excluded@);
                assert forall|k: int| 0 <= k < whole.len() implies #[trigger] whole[k] == (
                text::texts(before) + added)[k] by {
                    if k >= before.len() {
                        assert(excluded@[before.len() + (k - before.len())]@ == node_modules_in(
                            included@[k - before.len()]@,
                        ));
                    } else {
                        assert(excluded@[k] == before[k]);
                    }
                }
                assert(whole =~= text::texts(before) + added);
            }
        }
        Ok(WorkspaceGlobs::new(included, excluded))
    }

    /// Returns the inclusions and the exclusions that are configured for the workspace.
    pub fn get_configured_workspace_globs(&self, sources: WorkspaceSources) -> (found: Result<
        (Vec<String>, Vec<String>),
        Error,
    >)
        ensures
            match configured_globs(*self, sources) {
                Ok(configured) => {
                    &&& found matches Ok((included, excluded))
                    &&& text::texts(included@) == inclusions(text::texts(configured@))
                    &&& text::texts(excluded@) == exclusions(text::texts(configured@))
                },
                Err(error) => found == Err::<(Vec<String>, Vec<String>), Error>(error),
            },
            self is Pnpm || self is Pnpm6 || self is Pnpm9 ==> {
                &&& found is Ok <==> sources.pnpm_workspace is Some
                &&& found matches Err(error) ==> error == Error::Workspace(
                    MissingWorkspaceError { package_manager: *self },
                )
            },
            !(self is Pnpm || self is Pnpm6 || self is Pnpm9) ==> match sources.package_json {
                Ok(Some(Workspaces::TopLevel(packages))) => found is Ok <==> packages@.len() >= 1,
                Ok(Some(Workspaces::Nested { packages })) => found is Ok <==> packages@.len() >= 1,
                Ok(None) => found is Err,
                Err(error) => found is Err && found->Err_0 == error,
            },
            found matches Err(error) ==> sources.package_json is Ok ==> error == Error::Workspace(
                MissingWorkspaceError { package_manager: *self },
            ),
            found matches Ok((included, excluded)) ==> match (
                *self,
                sources.pnpm_workspace,
                sources.package_json,
            ) {
                (
                    PackageManager::Pnpm | PackageManager::Pnpm6 | PackageManager::Pnpm9,
                    Some(packages),
                    _,
                )
                | (
                    PackageManager::Npm
                    | PackageManager::Yarn
                    | PackageManager::Berry
                    | PackageManager::Bun,
                    _,
                    Ok(
                        Some(
                            Workspaces::TopLevel(packages)
                            | Workspaces::Nested { packages },
                        ),
                    ),
                ) => {
                    &&& included@.len() + excluded@.len() == packages@.len()
                    &&& text::texts(included@) == inclusions(text::texts(packages@))
                    &&& text::texts(excluded@) == exclusions(text::texts(packages@))
                },
                _ => false,
            },
    {
        let globs: Vec<String> = match self {
            PackageManager::Pnpm | PackageManager::Pnpm6 | PackageManager::Pnpm9 => {
                match sources.pnpm_workspace {
                    Some(globs) => globs,
                    None => return Err(Error::from(MissingWorkspaceError::from(*self))),
                }
            },
            PackageManager::Berry
            | PackageManager::Npm
            | PackageManager::Yarn
            | PackageManager::Bun => match sources.package_json {
                Ok(Some(workspaces)) => {
                    if workspaces.as_ref().len() == 0 {
                        return Err(Error::from(MissingWorkspaceError::from(*self)));
                    }
                    Vec::from(workspaces)
                },
                Ok(None) => return Err(Error::from(MissingWorkspaceError::from(*self))),
                Err(error) => return Err(error),
            },
        };
        proof {
            lemma_globs_are_partitioned(text::texts(globs@));
        }
        Ok(partition(globs))
    }
}

/// Every configured glob is an inclusion or an exclusion, and only one of them; what is included
/// has no `!` in front.
#[verifier::spinoff_prover]
pub proof fn lemma_globs_are_partitioned(globs: Seq<Seq<char>>)
    ensures
        inclusions(globs).len() + exclusions(globs).len() == globs.len(),
        forall|glob: Seq<char>|
            inclusions(globs).contains(glob) <==> globs.contains(glob) && text::stripped(
                glob,
                '!',
            ) is None,
        forall|glob: Seq<char>|
            exclusions(globs).contains(glob) <==> globs.contains(seq!['!'] + glob),
    decreases globs.len(),
{
    if globs.len() > 0 {
        let before = globs.drop_last();
        let last = globs.last();
        lemma_globs_are_partitioned(before);
        assert(globs =~= before.push(last));
        if text::stripped(last, '!') is None {
            assert(inclusions(globs) == inclusions(before).push(last));
            assert(exclusions(globs) == exclusions(before));
            assert forall|glob: Seq<char>|
                inclusions(globs).contains(glob) <==> globs.contains(glob) && text::stripped(
                    glob,
                    '!',
                ) is None by {
                lemma_push_contains(inclusions(before), last, glob);
                lemma_push_contains(before, last, glob);
            }
            assert forall|glob: Seq<char>|
                exclusions(globs).contains(glob) <==> globs.contains(seq!['!'] + glob) by {
                assert((seq!['!'] + glob)[0] == '!');
                lemma_push_contains(before, last, seq!['!'] + glob);
            }
        } else {
            let exclusion = last.drop_first();
            assert(inclusions(globs) == inclusions(before));
            assert(exclusions(globs) == exclusions(before).push(exclusion));
            assert(last =~= seq!['!'] + exclusion);
            assert forall|glob: Seq<char>|
                inclusions(globs).contains(glob) <==> globs.contains(glob) && text::stripped(
                    glob,
                    '!',
                ) is None by {
                lemma_push_contains(before, last, glob);
            }
            assert forall|glob: Seq<char>|
                exclusions(globs).contains(glob) <==> globs.contains(seq!['!'] + glob) by {
                assert((seq!['!'] + glob).drop_first() =~= glob);
                lemma_push_contains(exclusions(before), exclusion, glob);
                lemma_push_contains(before, last, seq!['!'] + glob);
            }
        }
    }
}

proof fn lemma_push_contains(list: Seq<Seq<char>>, last: Seq<char>, glob: Seq<char>)
    ensures
        list.push(last).contains(glob) <==> list.contains(glob) || glob == last,
{
    if list.contains(glob) {
        let i = choose|i: int| 0 <= i < list.len() && list[i] == glob;
        assert(list.push(last)[i] == glob);
    }
    assert(list.push(last)[list.len() as int] == last);
}

/// What is configured to be excluded, and what the manager always excludes, is excluded.
pub proof fn lemma_exclusions_are_kept(
    manager: PackageManager,
    globs: Seq<Seq<char>>,
    glob: Seq<char>,
)
    requires
        exclusions(globs).contains(glob) || manager.default_exclusion_texts().contains(glob),
    ensures
        all_exclusions(manager, globs).contains(glob),
{
    let fixed = exclusions(globs) + manager.default_exclusion_texts();
    assert(fixed.is_prefix_of(all_exclusions(manager, globs)));
    if exclusions(globs).contains(glob) {
        let i = choose|i: int| 0 <= i < exclusions(globs).len() && exclusions(globs)[i] == glob;
        assert(fixed[i] == glob);
        assert(all_exclusions(manager, globs)[i] == glob);
    } else {
        let defaults = manager.default_exclusion_texts();
        let i = choose|i: int| 0 <= i < defaults.len() && defaults[i] == glob;
        assert(fixed[exclusions(globs).len() + i] == glob);
        assert(all_exclusions(manager, globs)[exclusions(globs).len() + i] == glob);
    }
}

/// Yarn excludes the `node_modules` in every inclusion.
pub proof fn lemma_yarn_excludes_node_modules(globs: Seq<Seq<char>>, inclusion: Seq<char>)
    requires
        inclusions(globs).contains(inclusion),
    ensures
        all_exclusions(PackageManager::Yarn, globs).contains(node_modules_in(inclusion)),
{
    let included = inclusions(globs);
    let fixed = exclusions(globs) + PackageManager::Yarn.default_exclusion_texts();
    let i = choose|i: int| 0 <= i < included.len() && included[i] == inclusion;
    assert(all_exclusions(PackageManager::Yarn, globs)[fixed.len() + i] == node_modules_in(
        inclusion,
    ));
}

/// A manager goes by the file that holds its globs: pnpm by `pnpm-workspace.yaml` and the others
/// by `package.json`, whatever the other file says.
pub proof fn lemma_only_the_glob_source_matters(
    manager: PackageManager,
    one: WorkspaceSources,
    other: WorkspaceSources,
)
    requires
        manager.is_pnpm() ==> one.pnpm_workspace == other.pnpm_workspace,
        !manager.is_pnpm() ==> one.package_json == other.package_json,
    ensures
        configured_globs(manager, one) == configured_globs(manager, other),
{
}

/// A manager other than pnpm has the globs of the `workspaces` field, however it is written down,
/// if and only if there is at least one; what is configured is the field as it stands.
pub proof fn lemma_a_field_with_a_glob_is_enough(
    manager: PackageManager,
    sources: WorkspaceSources,
    packages: Vec<String>,
)
    requires
        manager is Npm || manager is Yarn || manager is Berry || manager is Bun,
        sources.package_json == Ok::<_, Error>(Some(Workspaces::TopLevel(packages)))
            || sources.package_json == Ok::<_, Error>(Some(Workspaces::Nested { packages })),
    ensures
        configured_globs(manager, sources) is Ok <==> packages@.len() >= 1,
        configured_globs(manager, sources) matches Ok(configured) ==> configured == packages,
        configured_globs(manager, sources) matches Err(error) ==> error == Error::Workspace(
            MissingWorkspaceError { package_manager: manager },
        ),
{
}

/// pnpm has the globs of `pnpm-workspace.yaml` if and only if the file lists packages, and takes
/// the list as it stands, even an empty one.
pub proof fn lemma_pnpm_takes_any_list(manager: PackageManager, sources: WorkspaceSources)
    requires
        manager is Pnpm || manager is Pnpm6 || manager is Pnpm9,
    ensures
        configured_globs(manager, sources) is Ok <==> sources.pnpm_workspace is Some,
        configured_globs(manager, sources) matches Ok(configured) ==> sources.pnpm_workspace
            == Some(configured),
        configured_globs(manager, sources) matches Err(error) ==> error == Error::Workspace(
            MissingWorkspaceError { package_manager: manager },
        ),
{
}

/// Where `package.json` cannot be read, a manager other than pnpm fails with the very error; where
/// it holds no field, there are no workspaces.
pub proof fn lemma_an_unreadable_file_is_reported(
    manager: PackageManager,
    sources: WorkspaceSources,
)
    requires
        manager is Npm || manager is Yarn || manager is Berry || manager is Bun,
    ensures
        sources.package_json matches Err(error) ==> configured_globs(manager, sources) == Err::<
            Vec<String>,
            Error,
        >(error),
        sources.package_json == Ok::<Option<Workspaces>, Error>(None) ==> configured_globs(
            manager,
            sources,
        ) == Err::<Vec<String>, Error>(
            Error::Workspace(MissingWorkspaceError { package_manager: manager }),
        ),
{
}

/// Two lists of globs, one after the other, are split as each of them is.
pub proof fn lemma_lists_are_split_apart(first: Seq<Seq<char>>, second: Seq<Seq<char>>)
    ensures
        inclusions(first + second) == inclusions(first) + inclusions(second),
        exclusions(first + second) == exclusions(first) + exclusions(second),
    decreases second.len(),
{
    let both = first + second;
    if second.len() == 0 {
        assert(both =~= first);
        assert(inclusions(first) + inclusions(second) =~= inclusions(first));
        assert(exclusions(first) + exclusions(second) =~= exclusions(first));
    } else {
        lemma_lists_are_split_apart(first, second.drop_last());
        assert(both.drop_last() =~= first + second.drop_last());
        assert(both.last() == second.last());
        assert(inclusions(both) =~= inclusions(first) + inclusions(second));
        assert(exclusions(both) =~= exclusions(first) + exclusions(second));
    }
}

/// A glob alone is an exclusion of what stands behind its `!`, or an inclusion if it has none.
pub proof fn lemma_one_glob_is_split(glob: Seq<char>)
    ensures
        inclusions(Seq::empty()) == Seq::<Seq<char>>::empty(),
        exclusions(Seq::empty()) == Seq::<Seq<char>>::empty(),
        inclusions(seq![seq!['!'] + glob]) == Seq::<Seq<char>>::empty(),
        exclusions(seq![seq!['!'] + glob]) == seq![glob],
        glob.len() == 0 || glob[0] != '!' ==> {
            &&& inclusions(seq![glob]) == seq![glob]
            &&& exclusions(seq![glob]) == Seq::<Seq<char>>::empty()
        },
{
    let excluded = seq!['!'] + glob;
    assert(excluded[0] == '!');
    assert(excluded.drop_first() =~= glob);
    assert(seq![excluded].drop_last() =~= Seq::<Seq<char>>::empty());
    assert(seq![glob].drop_last() =~= Seq::<Seq<char>>::empty());
    assert(seq![excluded].last() == excluded);
    assert(seq![glob].last() == glob);
    reveal_with_fuel(inclusions, 2);
    reveal_with_fuel(exclusions, 2);
    assert(exclusions(seq![excluded]) =~= seq![glob]);
    assert(inclusions(seq![glob]).len() > 0 ==> inclusions(seq![glob]) =~= seq![glob]);
}

/// What is excluded: first what is configured, behind it what the manager always excludes, and
/// behind that, for Yarn alone, the `node_modules` in each inclusion, all in their order.
pub proof fn lemma_exclusions_in_their_order(
    manager: PackageManager,
    globs: Seq<Seq<char>>,
    i: int,
)
    ensures
        ({
            let all = all_exclusions(manager, globs);
            let configured = exclusions(globs);
            let defaults = manager.default_exclusion_texts();
            let included = inclusions(globs);
            &&& manager !is Yarn ==> all.len() == configured.len() + defaults.len()
            &&& manager is Yarn ==> all.len() == configured.len() + included.len()
            &&& 0 <= i < configured.len() ==> all[i] == configured[i]
            &&& 0 <= i < defaults.len() ==> all[configured.len() + i] == defaults[i]
            &&& manager is Yarn && 0 <= i < included.len() ==> all[configured.len() + i]
                == included[i] + "/node_modules/**"@
        }),
{
}

} // verus!
