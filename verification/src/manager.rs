//! The supported package managers and what is fixed for each of them.

use vstd::prelude::*;

use crate::bun;
use crate::npm;
use crate::paths::AbsoluteSystemPathBuf;
use crate::pnpm;
use crate::text;
use crate::yarn;

verus! {

/// A package manager, told apart as far as its versions are treated differently.
#[derive(Debug, PartialEq, Eq, Clone, Copy, Structural)]
pub enum PackageManager {
    Berry,
    Npm,
    Pnpm9,
    Pnpm,
    Pnpm6,
    Yarn,
    Bun,
}

/// The managers that are supported, in the order in which they are listed.
pub open spec fn all_managers() -> Seq<PackageManager> {
    seq![
        PackageManager::Npm,
        PackageManager::Pnpm9,
        PackageManager::Pnpm,
        PackageManager::Pnpm6,
        PackageManager::Yarn,
        PackageManager::Berry,
        PackageManager::Bun,
    ]
}

/// The file that holds the globs of a workspace where no other is configured.
pub const PACKAGE_JSON: &'static str = "package.json";

/// The token that ends a program's own arguments.
pub const SEPARATOR: &'static str = "--";

impl PackageManager {
    /// The name of the manager.
    pub open spec fn name_text(self) -> Seq<char> {
        match self {
            PackageManager::Berry => "berry"@,
            PackageManager::Npm => "npm"@,
            PackageManager::Pnpm => "pnpm"@,
            PackageManager::Pnpm6 => "pnpm6"@,
            PackageManager::Pnpm9 => "pnpm9"@,
            PackageManager::Yarn => "yarn"@,
            PackageManager::Bun => "bun"@,
        }
    }

    /// The name of the manager's binary.
    pub open spec fn command_text(self) -> Seq<char> {
        match self {
            PackageManager::Npm => "npm"@,
            PackageManager::Pnpm | PackageManager::Pnpm6 | PackageManager::Pnpm9 => "pnpm"@,
            PackageManager::Yarn | PackageManager::Berry => "yarn"@,
            PackageManager::Bun => "bun"@,
        }
    }

    /// Whether the manager is pnpm, in any version.
    pub open spec fn is_pnpm(self) -> bool {
        self is Pnpm || self is Pnpm6 || self is Pnpm9
    }

    /// The name of the manager's lockfile.
    pub open spec fn lockfile_text(self) -> Seq<char> {
        match self {
            PackageManager::Npm => npm::LOCKFILE@,
            PackageManager::Bun => bun::LOCKFILE@,
            PackageManager::Pnpm | PackageManager::Pnpm6 | PackageManager::Pnpm9 => pnpm::LOCKFILE@,
            PackageManager::Yarn | PackageManager::Berry => yarn::LOCKFILE@,
        }
    }

    /// The globs that the manager never looks into, whatever is configured.
    pub open spec fn default_exclusion_texts(self) -> Seq<Seq<char>> {
        match self {
            PackageManager::Pnpm | PackageManager::Pnpm6 | PackageManager::Pnpm9 => {
                pnpm::default_exclusions()
            },
            PackageManager::Npm => seq!["**/node_modules/**"@],
            PackageManager::Bun => seq!["**/node_modules"@, "**/.git"@],
            PackageManager::Berry => seq!["**/node_modules"@, "**/.git"@, "**/.yarn"@],
            PackageManager::Yarn => Seq::empty(),
        }
    }

    /// The name of the file that holds the globs of the manager's workspaces.
    pub open spec fn glob_source_text(self) -> Seq<char> {
        if self.is_pnpm() {
            pnpm::WORKSPACE_CONFIGURATION_PATH@
        } else {
            PACKAGE_JSON@
        }
    }

    /// Whether a separator has to stand in front of the user's arguments. Yarn and Bun swallow one
    /// `--`, so they get one if and only if the user passes one; npm and pnpm 6 always need it,
    /// the others never.
    pub open spec fn needs_separator(self, user_args: Seq<Seq<char>>) -> bool {
        match self {
            PackageManager::Yarn | PackageManager::Bun => user_args.contains(SEPARATOR@),
            PackageManager::Npm | PackageManager::Pnpm6 => true,
            PackageManager::Pnpm | PackageManager::Pnpm9 | PackageManager::Berry => false,
        }
    }

    /// Returns every manager.
    pub fn supported_managers() -> (managers: &'static [Self])
        ensures
            managers@ == all_managers(),
            managers@.len() == 7,
            managers@[0] is Npm,
            managers@[1] is Pnpm9,
            managers@[2] is Pnpm,
            managers@[3] is Pnpm6,
            managers@[4] is Yarn,
            managers@[5] is Berry,
            managers@[6] is Bun,
    {
        [
            Self::Npm,
            Self::Pnpm9,
            Self::Pnpm,
            Self::Pnpm6,
            Self::Yarn,
            Self::Berry,
            Self::Bun,
        ].as_slice()
    }

    /// Returns the name of the manager.
    pub fn name(&self) -> (name: &'static str)
        ensures
            name@ == self.name_text(),
    {
        match self {
            PackageManager::Berry => "berry",
            PackageManager::Npm => "npm",
            PackageManager::Pnpm => "pnpm",
            PackageManager::Pnpm6 => "pnpm6",
            PackageManager::Pnpm9 => "pnpm9",
            PackageManager::Yarn => "yarn",
            PackageManager::Bun => "bun",
        }
    }

    /// Returns the name of the manager's binary.
    pub fn command(&self) -> (command: &'static str)
        ensures
            command@ == self.command_text(),
    {
        match self {
            PackageManager::Npm => "npm",
            PackageManager::Pnpm | PackageManager::Pnpm6 | PackageManager::Pnpm9 => "pnpm",
            PackageManager::Yarn | PackageManager::Berry => "yarn",
            PackageManager::Bun => "bun",
        }
    }

    /// Returns the globs that the manager never looks into, whatever is configured.
    pub fn get_default_exclusions(&self) -> (globs: Vec<String>)
        ensures
            text::texts(globs@) == self.default_exclusion_texts(),
            self is Npm ==> globs@.len() == 1 && globs@[0]@ == "**/node_modules/**"@,
            self is Pnpm || self is Pnpm6 || self is Pnpm9 ==> {
                &&& globs@.len() == 2
                &&& globs@[0]@ == "**/node_modules/**"@
                &&& globs@[1]@ == "**/bower_components/**"@
            },
            self is Bun ==> {
                &&& globs@.len() == 2
                &&& globs@[0]@ == "**/node_modules"@
                &&& globs@[1]@ == "**/.git"@
            },
            self is Berry ==> {
                &&& globs@.len() == 3
                &&& globs@[0]@ == "**/node_modules"@
                &&& globs@[1]@ == "**/.git"@
                &&& globs@[2]@ == "**/.yarn"@
            },
            self is Yarn ==> globs@.len() == 0,
    {
        let globs = match self {
            PackageManager::Pnpm | PackageManager::Pnpm6 | PackageManager::Pnpm9 => {
                pnpm::get_default_exclusions()
            },
            PackageManager::Npm => text::owned(&["**/node_modules/**"]),
            PackageManager::Bun => text::owned(&["**/node_modules", "**/.git"]),
            PackageManager::Berry => text::owned(&["**/node_modules", "**/.git", "**/.yarn"]),
            // yarn excludes by the globs of its workspace
            PackageManager::Yarn => Vec::new(),
        };
        assert(text::texts(globs@) =~= self.default_exclusion_texts());
        assert forall|i: int| 0 <= i < globs@.len() implies (#[trigger] globs@[i])@
            == self.default_exclusion_texts()[i] by {
            assert(text::texts(globs@)[i] == globs@[i]@);
        }
        assert(globs@.len() == text::texts(globs@).len());
        globs
    }

    /// Returns the name of the manager's lockfile.
    pub fn lockfile_name(&self) -> (name: &'static str)
        ensures
            name@ == self.lockfile_text(),
    {
        match self {
            PackageManager::Npm => npm::LOCKFILE,
            PackageManager::Bun => bun::LOCKFILE,
            PackageManager::Pnpm | PackageManager::Pnpm6 | PackageManager::Pnpm9 => pnpm::LOCKFILE,
            PackageManager::Yarn | PackageManager::Berry => yarn::LOCKFILE,
        }
    }

    /// Returns the path of the manager's lockfile.
    pub fn lockfile_path(&self, turbo_root: &AbsoluteSystemPathBuf) -> (path: AbsoluteSystemPathBuf)
        ensures
            path@ == crate::paths::path_in(turbo_root@, turbo_root.separator, self.lockfile_text()),
            path.separator == turbo_root.separator,
    {
        turbo_root.join_component(self.lockfile_name())
    }

    /// Returns the file in which the manager's workspaces are configured, if it has one of its
    /// own.
    pub fn workspace_configuration_path(&self) -> (path: Option<&'static str>)
        ensures
            path is Some == self.is_pnpm(),
            path matches Some(p) ==> p@ == pnpm::WORKSPACE_CONFIGURATION_PATH@,
            path is Some <==> self is Pnpm || self is Pnpm6 || self is Pnpm9,
            path matches Some(p) ==> p@ == "pnpm-workspace.yaml"@,
    {
        match self {
            PackageManager::Pnpm | PackageManager::Pnpm6 | PackageManager::Pnpm9 => {
                Some(pnpm::WORKSPACE_CONFIGURATION_PATH)
            },
            PackageManager::Npm
            | PackageManager::Berry
            | PackageManager::Yarn
            | PackageManager::Bun => None,
        }
    }

    /// Returns the path of the file that holds the globs of the manager's workspaces.
    pub fn workspace_glob_source(&self, root_path: &AbsoluteSystemPathBuf) -> (path:
        AbsoluteSystemPathBuf)
        ensures
            path@ == crate::paths::path_in(
                root_path@,
                root_path.separator,
                self.glob_source_text(),
            ),
            path.separator == root_path.separator,
    {
        root_path.join_component(self.workspace_configuration_path().unwrap_or(PACKAGE_JSON))
    }

    /// Returns the separator that has to stand in front of the user's arguments, if one has to.
    pub fn arg_separator(&self, user_args: &[String]) -> (separator: Option<&'static str>)
        ensures
            separator is Some == self.needs_separator(text::texts(user_args@)),
            separator matches Some(s) ==> s@ == SEPARATOR@,
            separator matches Some(s) ==> s@ == "--"@,
            self is Npm || self is Pnpm6 ==> separator is Some,
            self is Pnpm || self is Pnpm9 || self is Berry ==> separator is None,
            self is Yarn || self is Bun ==> (separator is Some <==> exists|i: int|
                0 <= i < user_args@.len() && (#[trigger] user_args@[i])@ == "--"@),
    {
        proof {
            lemma_separators_among_arguments(user_args@);
        }
        match self {
            PackageManager::Yarn | PackageManager::Bun => {
                // Yarn and bun warn and swallow a "--" token. If the user is passing "--", another
                // one goes in front of it, so that the user's is not swallowed. Otherwise none is
                // needed, and the warning is avoided.
                if text::contains(user_args, SEPARATOR) {
                    Some(SEPARATOR)
                } else {
                    None
                }
            },
            PackageManager::Npm | PackageManager::Pnpm6 => Some(SEPARATOR),
            PackageManager::Pnpm | PackageManager::Pnpm9 | PackageManager::Berry => None,
        }
    }
}

/// Every manager is supported, and listed once.
pub proof fn lemma_every_manager_is_listed_once(manager: PackageManager)
    ensures
        all_managers().contains(manager),
        all_managers().no_duplicates(),
{
    let i: int = match manager {
        PackageManager::Npm => 0,
        PackageManager::Pnpm9 => 1,
        PackageManager::Pnpm => 2,
        PackageManager::Pnpm6 => 3,
        PackageManager::Yarn => 4,
        PackageManager::Berry => 5,
        PackageManager::Bun => 6,
    };
    assert(all_managers()[i] == manager);
}

proof fn lemma_name_literals()
    ensures
        "berry"@ == seq!['b', 'e', 'r', 'r', 'y'],
        "npm"@ == seq!['n', 'p', 'm'],
        "pnpm"@ == seq!['p', 'n', 'p', 'm'],
        "pnpm6"@ == seq!['p', 'n', 'p', 'm', '6'],
        "pnpm9"@ == seq!['p', 'n', 'p', 'm', '9'],
        "yarn"@ == seq!['y', 'a', 'r', 'n'],
        "bun"@ == seq!['b', 'u', 'n'],
{
    reveal_strlit("berry");
    reveal_strlit("npm");
    reveal_strlit("pnpm");
    reveal_strlit("pnpm6");
    reveal_strlit("pnpm9");
    reveal_strlit("yarn");
    reveal_strlit("bun");
}

/// No two managers have the same name.
pub proof fn lemma_names_are_distinct(a: PackageManager, b: PackageManager)
    requires
        a.name_text() == b.name_text(),
    ensures
        a == b,
{
    lemma_name_literals();
    assert(a.name_text().len() == b.name_text().len());
    assert(a.name_text()[0] == b.name_text()[0]);
    if a.name_text().len() == 5 {
        assert(a.name_text()[4] == b.name_text()[4]);
    }
}

/// The lockfiles of two managers have the same name if and only if the managers share a binary.
pub proof fn lemma_lockfile_goes_by_command(a: PackageManager, b: PackageManager)
    ensures
        a.lockfile_text() == b.lockfile_text() <==> a.command_text() == b.command_text(),
{
    lemma_name_literals();
    reveal_strlit("package-lock.json");
    reveal_strlit("bun.lock");
    reveal_strlit("pnpm-lock.yaml");
    reveal_strlit("yarn.lock");
    assert(a.command_text() == b.command_text() ==> a.command_text()[0] == b.command_text()[0]);
    assert(a.lockfile_text() == b.lockfile_text() ==> a.lockfile_text().len()
        == b.lockfile_text().len());
}

/// The binary of a manager is called `pnpm` if and only if the manager stands for a version of
/// pnpm.
pub proof fn lemma_pnpm_version_goes_by_command(manager: PackageManager)
    ensures
        pnpm::pnpm_version_of(manager) is Some <==> manager.command_text() == "pnpm"@,
        manager.is_pnpm() <==> manager.command_text() == "pnpm"@,
{
    lemma_name_literals();
    assert(manager.command_text() == "pnpm"@ ==> manager.command_text()[0] == 'p');
}

/// The arguments that a manager is given for the user's arguments.
pub open spec fn given_args(manager: PackageManager, user_args: Seq<Seq<char>>) -> Seq<Seq<char>> {
    if manager.needs_separator(user_args) {
        seq![SEPARATOR@] + user_args
    } else {
        user_args
    }
}

/// `args` with the first `--` swallowed.
pub open spec fn swallowed(args: Seq<Seq<char>>) -> Seq<Seq<char>>
    decreases args.len(),
{
    if args.len() == 0 {
        args
    } else if args[0] == SEPARATOR@ {
        args.drop_first()
    } else {
        seq![args[0]] + swallowed(args.drop_first())
    }
}

proof fn lemma_nothing_to_swallow(args: Seq<Seq<char>>)
    requires
        !args.contains(SEPARATOR@),
    ensures
        swallowed(args) == args,
    decreases args.len(),
{
    if args.len() > 0 {
        assert(!args.drop_first().contains(SEPARATOR@)) by {
            assert forall|i: int| 0 <= i < args.len() - 1 implies args.drop_first()[i]
                != SEPARATOR@ by {
                assert(args.drop_first()[i] == args[i + 1]);
            }
        }
        lemma_nothing_to_swallow(args.drop_first());
        assert(swallowed(args) =~= args);
    }
}

/// Yarn and Bun swallow one `--`; with the separator that they are given, what is left is what the
/// user passed.
pub proof fn lemma_user_args_are_not_swallowed(manager: PackageManager, user_args: Seq<Seq<char>>)
    requires
        manager is Yarn || manager is Bun,
    ensures
        swallowed(given_args(manager, user_args)) == user_args,
{
    if manager.needs_separator(user_args) {
        assert(given_args(manager, user_args).drop_first() =~= user_args);
    } else {
        lemma_nothing_to_swallow(user_args);
    }
}

proof fn lemma_separators_among_arguments(user_args: Seq<String>)
    ensures
        text::texts(user_args).contains("--"@) <==> exists|i: int|
            0 <= i < user_args.len() && (#[trigger] user_args[i])@ == "--"@,
{
    let given = text::texts(user_args);
    if given.contains("--"@) {
        let i = choose|i: int| 0 <= i < given.len() && given[i] == "--"@;
        assert(user_args[i]@ == "--"@);
    }
    if exists|i: int| 0 <= i < user_args.len() && (#[trigger] user_args[i])@ == "--"@ {
        let i = choose|i: int| 0 <= i < user_args.len() && (#[trigger] user_args[i])@ == "--"@;
        assert(given[i] == "--"@);
    }
}

/// Whether a manager other than Yarn and Bun gets a separator does not depend on the arguments:
/// npm and pnpm 6 get one for every list of them, Berry and the later pnpm for none.
pub proof fn lemma_separator_is_fixed_without_swallowing(
    manager: PackageManager,
    user_args: Seq<Seq<char>>,
    other_args: Seq<Seq<char>>,
)
    requires
        !(manager is Yarn || manager is Bun),
    ensures
        manager.needs_separator(user_args) == manager.needs_separator(other_args),
        manager is Npm || manager is Pnpm6 ==> manager.needs_separator(user_args),
        manager is Pnpm || manager is Pnpm9 || manager is Berry ==> !manager.needs_separator(
            user_args,
        ),
{
}

/// Yarn and Bun get a separator if and only if one of the arguments is one, wherever it stands.
pub proof fn lemma_separator_answers_a_separator(
    manager: PackageManager,
    before: Seq<Seq<char>>,
    argument: Seq<char>,
    after: Seq<Seq<char>>,
)
    requires
        manager is Yarn || manager is Bun,
    ensures
        !manager.needs_separator(Seq::empty()),
        manager.needs_separator(before + seq![argument] + after) <==> {
            ||| argument == "--"@
            ||| manager.needs_separator(before)
            ||| manager.needs_separator(after)
        },
{
    let all = before + seq![argument] + after;
    if argument == "--"@ {
        assert(all[before.len() as int] == argument);
    }
    if manager.needs_separator(before) {
        let i = choose|i: int| 0 <= i < before.len() && before[i] == "--"@;
        assert(all[i] == "--"@);
    }
    if manager.needs_separator(after) {
        let i = choose|i: int| 0 <= i < after.len() && after[i] == "--"@;
        assert(all[before.len() + 1 + i] == "--"@);
    }
    if manager.needs_separator(all) {
        let i = choose|i: int| 0 <= i < all.len() && all[i] == "--"@;
        if i < before.len() {
            assert(before[i] == "--"@);
        } else if i > before.len() {
            assert(after[i - before.len() - 1] == "--"@);
        }
    }
}

/// The binary of a manager is what its name begins with; only Berry is run by another name.
pub proof fn lemma_command_begins_the_name(manager: PackageManager)
    ensures
        manager !is Berry ==> manager.command_text().is_prefix_of(manager.name_text()),
        manager is Berry ==> manager.command_text() == PackageManager::Yarn.command_text(),
        manager.command_text() == manager.name_text() <==> !(manager is Berry || manager is Pnpm6
            || manager is Pnpm9),
{
    lemma_name_literals();
    assert(seq!['p', 'n', 'p', 'm'].is_prefix_of(seq!['p', 'n', 'p', 'm', '6']));
    assert(seq!['p', 'n', 'p', 'm'].is_prefix_of(seq!['p', 'n', 'p', 'm', '9']));
    assert(manager.command_text() == manager.name_text() ==> manager.command_text().len()
        == manager.name_text().len());
    assert(manager.command_text() == manager.name_text() ==> manager.command_text()[0]
        == manager.name_text()[0]);
}

/// What each manager is called, what it is run as, and where it keeps its lockfile and its
/// workspaces.
pub proof fn lemma_what_managers_are_called(manager: PackageManager)
    ensures
        manager.name_text() == "berry"@ <==> manager is Berry,
        manager.name_text() == "npm"@ <==> manager is Npm,
        manager.name_text() == "pnpm"@ <==> manager is Pnpm,
        manager.name_text() == "pnpm6"@ <==> manager is Pnpm6,
        manager.name_text() == "pnpm9"@ <==> manager is Pnpm9,
        manager.name_text() == "yarn"@ <==> manager is Yarn,
        manager.name_text() == "bun"@ <==> manager is Bun,
        manager.command_text() == "npm"@ <==> manager is Npm,
        manager.command_text() == "pnpm"@ <==> manager is Pnpm || manager is Pnpm6
            || manager is Pnpm9,
        manager.command_text() == "yarn"@ <==> manager is Yarn || manager is Berry,
        manager.command_text() == "bun"@ <==> manager is Bun,
        manager.lockfile_text() == "package-lock.json"@ <==> manager.command_text() == "npm"@,
        manager.lockfile_text() == "pnpm-lock.yaml"@ <==> manager.command_text() == "pnpm"@,
        manager.lockfile_text() == "yarn.lock"@ <==> manager.command_text() == "yarn"@,
        manager.lockfile_text() == "bun.lock"@ <==> manager.command_text() == "bun"@,
        manager.glob_source_text() == "pnpm-workspace.yaml"@ <==> manager.command_text()
            == "pnpm"@,
        manager.glob_source_text() == "package.json"@ <==> manager.command_text() != "pnpm"@,
{
    lemma_names_are_distinct(manager, manager);
    assert(PackageManager::Berry.name_text() == "berry"@);
    assert(PackageManager::Npm.name_text() == "npm"@);
    assert(PackageManager::Pnpm.name_text() == "pnpm"@);
    assert(PackageManager::Pnpm6.name_text() == "pnpm6"@);
    assert(PackageManager::Pnpm9.name_text() == "pnpm9"@);
    assert(PackageManager::Yarn.name_text() == "yarn"@);
    assert(PackageManager::Bun.name_text() == "bun"@);
    assert forall|other: PackageManager| #[trigger]
        manager.name_text() == other.name_text() implies manager == other by {
        lemma_names_are_distinct(manager, other);
    }
    lemma_name_literals();
    reveal_strlit("package-lock.json");
    reveal_strlit("bun.lock");
    reveal_strlit("pnpm-lock.yaml");
    reveal_strlit("yarn.lock");
    reveal_strlit("pnpm-workspace.yaml");
    reveal_strlit("package.json");
    assert("npm"@[0] == 'n' && "pnpm"@[0] == 'p' && "yarn"@[0] == 'y' && "bun"@[0] == 'b');
    assert("package-lock.json"@.len() == 17 && "pnpm-lock.yaml"@.len() == 14);
    assert("yarn.lock"@.len() == 9 && "bun.lock"@.len() == 8);
    assert("pnpm-workspace.yaml"@.len() == 19 && "package.json"@.len() == 12);
}

/// Every manager but Yarn excludes `node_modules` whatever is configured, and only by the globs
/// listed here does it exclude anything so.
pub proof fn lemma_default_exclusions(manager: PackageManager, glob: Seq<char>)
    ensures
        manager.default_exclusion_texts().no_duplicates(),
        manager.default_exclusion_texts().contains(glob) <==> {
            ||| glob == "**/node_modules/**"@ && (manager is Npm || manager.command_text()
                == "pnpm"@)
            ||| glob == "**/bower_components/**"@ && manager.command_text() == "pnpm"@
            ||| glob == "**/node_modules"@ && (manager is Bun || manager is Berry)
            ||| glob == "**/.git"@ && (manager is Bun || manager is Berry)
            ||| glob == "**/.yarn"@ && manager is Berry
        },
{
    lemma_what_managers_are_called(manager);
    reveal_strlit("**/node_modules/**");
    reveal_strlit("**/bower_components/**");
    reveal_strlit("**/node_modules");
    reveal_strlit("**/.git");
    reveal_strlit("**/.yarn");
    assert("**/node_modules/**"@.len() == 18 && "**/bower_components/**"@.len() == 22);
    assert("**/node_modules"@.len() == 15 && "**/.git"@.len() == 7 && "**/.yarn"@.len() == 8);
    let defaults = manager.default_exclusion_texts();
    if manager !is Yarn {
        assert(defaults[0] == defaults[0]);
    }
    if defaults.len() > 1 {
        assert(defaults[1] == defaults[1]);
    }
    if defaults.len() > 2 {
        assert(defaults[2] == defaults[2]);
    }
}

} // verus!
