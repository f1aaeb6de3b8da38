//! The errors of the library and the messages that show them.

use vstd::prelude::*;

use crate::manager::PackageManager;
use crate::paths::AbsoluteSystemPathBuf;
use crate::source::{NamedSource, SourceSpan};
use crate::text;

verus! {

/// No workspace is configured for a package manager.
#[derive(Debug, PartialEq, Eq, Clone, Copy, Structural)]
pub struct MissingWorkspaceError {
    pub package_manager: PackageManager,
}

/// No package manager was found.
#[derive(Debug, PartialEq, Eq, Clone, Copy, Structural)]
pub struct NoPackageManager;

/// What can go wrong. An error of a file, a parser or another part of the program is carried as
/// the text that shows it.
#[derive(Debug, PartialEq, Eq)]
pub enum Error {
    Io(String),
    Workspace(MissingWorkspaceError),
    ParsingYaml(String),
    ParsingJson(String),
    Wax(String),
    PackageJson(String),
    Other(String),
    NoPackageManager(NoPackageManager),
    MultiplePackageManagers { managers: Vec<String> },
    InvalidVersion { explanation: String, span: Option<SourceSpan>, text: NamedSource },
    Which(String, String),
    Utf8Error(String),
    Path(String),
    InvalidPackageManager { pattern: String, span: Option<SourceSpan>, text: NamedSource },
    WorkspaceGlob(String),
    Lockfile(String),
    LockfileMissing(AbsoluteSystemPathBuf),
    WorkspaceDiscovery(String),
    MissingPackageManager,
    Yarnrc(String),
    BunBinaryLockfile,
}

impl NoPackageManager {
    /// The message that shows the error.
    pub open spec fn message_text(self) -> Seq<char> {
        "We did not find a package manager specified in your root package.json. Please set the \"packageManager\" property in your root package.json (https://nodejs.org/api/packages.html#packagemanager) or run `npx @turbo/codemod add-package-manager` in the root of your monorepo."@
    }

    /// Returns the message that shows the error.
    pub fn message(&self) -> (message: String)
        ensures
            message@ == self.message_text(),
    {
        "We did not find a package manager specified in your root package.json. Please set the \"packageManager\" property in your root package.json (https://nodejs.org/api/packages.html#packagemanager) or run `npx @turbo/codemod add-package-manager` in the root of your monorepo.".to_owned()
    }
}

impl MissingWorkspaceError {
    /// The message that shows the error, by the files and the name of the manager.
    pub open spec fn message_text(self) -> Seq<char> {
        match self.package_manager {
            PackageManager::Pnpm | PackageManager::Pnpm6 | PackageManager::Pnpm9 => {
                "pnpm-workspace.yaml: no packages found. Turborepo requires pnpm workspaces and thus packages to be defined in the root pnpm-workspace.yaml"@
            },
            PackageManager::Yarn | PackageManager::Berry => {
                "package.json: no workspaces found. Turborepo requires yarn workspaces to be defined in the root package.json"@
            },
            PackageManager::Npm => {
                "package.json: no workspaces found. Turborepo requires npm workspaces to be defined in the root package.json"@
            },
            PackageManager::Bun => {
                "package.json: no workspaces found. Turborepo requires bun workspaces to be defined in the root package.json"@
            },
        }
    }

    /// Returns the message that shows the error.
    pub fn message(&self) -> (message: String)
        ensures
            message@ == self.message_text(),
    {
        let message = match self.package_manager {
            PackageManager::Pnpm | PackageManager::Pnpm6 | PackageManager::Pnpm9 => {
                "pnpm-workspace.yaml: no packages found. Turborepo requires pnpm workspaces and thus packages to be defined in the root pnpm-workspace.yaml"
            },
            PackageManager::Yarn | PackageManager::Berry => {
                "package.json: no workspaces found. Turborepo requires yarn workspaces to be defined in the root package.json"
            },
            PackageManager::Npm => {
                "package.json: no workspaces found. Turborepo requires npm workspaces to be defined in the root package.json"
            },
            PackageManager::Bun => {
                "package.json: no workspaces found. Turborepo requires bun workspaces to be defined in the root package.json"
            },
        };
        message.to_owned()
    }
}

impl From<PackageManager> for MissingWorkspaceError {
    fn from(value: PackageManager) -> (error: Self) {
        MissingWorkspaceError { package_manager: value }
    }
}

impl vstd::std_specs::convert::FromSpecImpl<PackageManager> for MissingWorkspaceError {
    open spec fn obeys_from_spec() -> bool {
        true
    }

    open spec fn from_spec(value: PackageManager) -> Self {
        MissingWorkspaceError { package_manager: value }
    }
}

impl From<MissingWorkspaceError> for Error {
    fn from(value: MissingWorkspaceError) -> (error: Self) {
        Error::Workspace(value)
    }
}

impl vstd::std_specs::convert::FromSpecImpl<MissingWorkspaceError> for Error {
    open spec fn obeys_from_spec() -> bool {
        true
    }

    open spec fn from_spec(value: MissingWorkspaceError) -> Self {
        Error::Workspace(value)
    }
}

impl From<NoPackageManager> for Error {
    fn from(value: NoPackageManager) -> (error: Self) {
        Error::NoPackageManager(value)
    }
}

impl vstd::std_specs::convert::FromSpecImpl<NoPackageManager> for Error {
    open spec fn obeys_from_spec() -> bool {
        true
    }

    open spec fn from_spec(value: NoPackageManager) -> Self {
        Error::NoPackageManager(value)
    }
}

/// `first` followed by `second`.
fn followed_by(first: &str, second: &str) -> (both: String)
    ensures
        both@ == first@ + second@,
{
    let mut both = first.to_owned();
    both.append(second);
    both
}

/// `middle` between `before` and `after`.
fn between(before: &str, middle: &str, after: &str) -> (whole: String)
    ensures
        whole@ == before@ + middle@ + after@,
{
    let mut whole = before.to_owned();
    whole.append(middle);
    whole.append(after);
    whole
}

impl Error {
    /// The message that shows the error.
    pub open spec fn message_text(self) -> Seq<char> {
        match self {
            Error::Io(cause) => "I/O error: "@ + cause@,
            Error::Workspace(missing) => missing.message_text(),
            Error::ParsingYaml(cause) => "YAML parsing error: "@ + cause@,
            Error::ParsingJson(cause) => "JSON parsing error: "@ + cause@,
            Error::Wax(cause) => "Globbing error: "@ + cause@,
            Error::PackageJson(cause) => cause@,
            Error::Other(cause) => cause@,
            Error::NoPackageManager(missing) => missing.message_text(),
            Error::MultiplePackageManagers { managers } => {
                "Multiple package managers in your repository: "@ + text::joined(
                    text::texts(managers@),
                    ", "@,
                ) + ". Please use one package manager."@
            },
            Error::InvalidVersion { explanation, span, text } => {
                "Invalid semantic version: "@ + explanation@
            },
            Error::Which(cause, binary) => cause@ + ": "@ + binary@,
            Error::Utf8Error(cause) => "Invalid utf8: "@ + cause@,
            Error::Path(cause) => cause@,
            Error::InvalidPackageManager { pattern, span, text } => {
                "Could not parse the `packageManager` field in package.json, expected to match regular expression `"@
                    + pattern@ + "`."@
            },
            Error::WorkspaceGlob(cause) => cause@,
            Error::Lockfile(cause) => cause@,
            Error::LockfileMissing(path) => "Lockfile not found at "@ + path@,
            Error::WorkspaceDiscovery(cause) => "Discovering workspace: "@ + cause@,
            Error::MissingPackageManager => "Missing `packageManager` field in package.json"@,
            Error::Yarnrc(cause) => cause@,
            Error::BunBinaryLockfile => {
                "Only found bun.lockb, please run `bun install --save-text-lockfile`"@
            },
        }
    }

    /// Returns the message that shows the error.
    pub fn message(&self) -> (message: String)
        ensures
            message@ == self.message_text(),
    {
        match self {
            Error::Io(cause) => followed_by("I/O error: ", cause.as_str()),
            Error::Workspace(missing) => missing.message(),
            Error::ParsingYaml(cause) => followed_by("YAML parsing error: ", cause.as_str()),
            Error::ParsingJson(cause) => followed_by("JSON parsing error: ", cause.as_str()),
            Error::Wax(cause) => followed_by("Globbing error: ", cause.as_str()),
            Error::PackageJson(cause) => cause.clone(),
            Error::Other(cause) => cause.clone(),
            Error::NoPackageManager(missing) => missing.message(),
            Error::MultiplePackageManagers { managers } => {
                let names = text::join(managers.as_slice(), ", ");
                between(
                    "Multiple package managers in your repository: ",
                    names.as_str(),
                    ". Please use one package manager.",
                )
            },
            Error::InvalidVersion { explanation, span: _, text: _ } => {
                followed_by("Invalid semantic version: ", explanation.as_str())
            },
            Error::Which(cause, binary) => between(cause.as_str(), ": ", binary.as_str()),
            Error::Utf8Error(cause) => followed_by("Invalid utf8: ", cause.as_str()),
            Error::Path(cause) => cause.clone(),
            Error::InvalidPackageManager { pattern, span: _, text: _ } => between(
                "Could not parse the `packageManager` field in package.json, expected to match regular expression `",
                pattern.as_str(),
                "`.",
            ),
            Error::WorkspaceGlob(cause) => cause.clone(),
            Error::Lockfile(cause) => cause.clone(),
            Error::LockfileMissing(path) => followed_by(
                "Lockfile not found at ",
                path.path.as_str(),
            ),
            Error::WorkspaceDiscovery(cause) => followed_by(
                "Discovering workspace: ",
                cause.as_str(),
            ),
            Error::MissingPackageManager => {
                "Missing `packageManager` field in package.json".to_owned()
            },
            Error::Yarnrc(cause) => cause.clone(),
            Error::BunBinaryLockfile => {
                "Only found bun.lockb, please run `bun install --save-text-lockfile`".to_owned()
            },
        }
    }
}

/// The message about a missing workspace begins with the file that the globs of the manager's
/// workspaces are read from.
pub proof fn lemma_message_names_the_glob_source(manager: PackageManager)
    ensures
        manager.glob_source_text().is_prefix_of(
            (MissingWorkspaceError { package_manager: manager }).message_text(),
        ),
{
    reveal_strlit("pnpm-workspace.yaml");
    reveal_strlit("package.json");
    reveal_strlit(
        "pnpm-workspace.yaml: no packages found. Turborepo requires pnpm workspaces and thus packages to be defined in the root pnpm-workspace.yaml",
    );
    reveal_strlit(
        "package.json: no workspaces found. Turborepo requires yarn workspaces to be defined in the root package.json",
    );
    reveal_strlit(
        "package.json: no workspaces found. Turborepo requires npm workspaces to be defined in the root package.json",
    );
    reveal_strlit(
        "package.json: no workspaces found. Turborepo requires bun workspaces to be defined in the root package.json",
    );
    let source = manager.glob_source_text();
    let message = (MissingWorkspaceError { package_manager: manager }).message_text();
    assert(source =~= message.subrange(0, source.len() as int));
}

/// A message shows all of what went wrong, behind or between words that are fixed for the kind of
/// error.
pub proof fn lemma_messages_show_the_cause(cause: String, binary: String)
    ensures
        (Error::Io(cause)).message_text() == "I/O error: "@ + cause@,
        (Error::ParsingYaml(cause)).message_text() == "YAML parsing error: "@ + cause@,
        (Error::ParsingJson(cause)).message_text() == "JSON parsing error: "@ + cause@,
        (Error::Wax(cause)).message_text() == "Globbing error: "@ + cause@,
        (Error::Utf8Error(cause)).message_text() == "Invalid utf8: "@ + cause@,
        (Error::WorkspaceDiscovery(cause)).message_text() == "Discovering workspace: "@ + cause@,
        (Error::Which(cause, binary)).message_text() == cause@ + ": "@ + binary@,
        (Error::PackageJson(cause)).message_text() == cause@,
        (Error::Other(cause)).message_text() == cause@,
        (Error::Path(cause)).message_text() == cause@,
        (Error::WorkspaceGlob(cause)).message_text() == cause@,
        (Error::Lockfile(cause)).message_text() == cause@,
        (Error::Yarnrc(cause)).message_text() == cause@,
{
}

/// The message about a field shows the pattern or the explanation, wherever the field stands; the
/// one about a lockfile shows its path.
pub proof fn lemma_messages_do_not_depend_on_the_place(
    shown: String,
    span: Option<SourceSpan>,
    text: NamedSource,
    path: AbsoluteSystemPathBuf,
)
    ensures
        (Error::InvalidVersion { explanation: shown, span, text }).message_text()
            == "Invalid semantic version: "@ + shown@,
        (Error::InvalidPackageManager { pattern: shown, span, text }).message_text()
            == "Could not parse the `packageManager` field in package.json, expected to match regular expression `"@
            + shown@ + "`."@,
        (Error::LockfileMissing(path)).message_text() == "Lockfile not found at "@ + path@,
{
}

/// The message about several managers names them all, with a comma between neighbours: two lists
/// of managers in one are shown one behind the other.
pub proof fn lemma_every_manager_found_is_named(
    managers: Vec<String>,
    first: Seq<Seq<char>>,
    second: Seq<Seq<char>>,
)
    requires
        first.len() > 0,
        second.len() > 0,
        text::texts(managers@) == first + second,
    ensures
        (Error::MultiplePackageManagers { managers }).message_text()
            == "Multiple package managers in your repository: "@ + (text::joined(first, ", "@)
            + ", "@ + text::joined(second, ", "@)) + ". Please use one package manager."@,
{
    text::lemma_joined_lists_meet_at_a_separator(first, second, ", "@);
}

/// The message about a missing workspace goes by the binary of the manager alone.
pub proof fn lemma_missing_workspaces_go_by_command(a: PackageManager, b: PackageManager)
    ensures
        (MissingWorkspaceError { package_manager: a }).message_text() == (MissingWorkspaceError {
            package_manager: b,
        }).message_text() <==> a.command_text() == b.command_text(),
        (Error::Workspace(MissingWorkspaceError { package_manager: a })).message_text() == (
        MissingWorkspaceError { package_manager: a }).message_text(),
{
    crate::manager::lemma_what_managers_are_called(a);
    crate::manager::lemma_what_managers_are_called(b);
    reveal_strlit(
        "pnpm-workspace.yaml: no packages found. Turborepo requires pnpm workspaces and thus packages to be defined in the root pnpm-workspace.yaml",
    );
    reveal_strlit(
        "package.json: no workspaces found. Turborepo requires yarn workspaces to be defined in the root package.json",
    );
    reveal_strlit(
        "package.json: no workspaces found. Turborepo requires npm workspaces to be defined in the root package.json",
    );
    reveal_strlit(
        "package.json: no workspaces found. Turborepo requires bun workspaces to be defined in the root package.json",
    );
    let one = (MissingWorkspaceError { package_manager: a }).message_text();
    let other = (MissingWorkspaceError { package_manager: b }).message_text();
    if one == other {
        assert(one[0] == other[0]);
        assert(one[54] == other[54]);
    }
}

} // verus!
