//! Finding out which package manager a repository uses: from its `package.json`, or from what the
//! detectors find in the repository.

use vstd::prelude::*;

use crate::bun::BunVersion;
use crate::error::{Error, NoPackageManager};
use crate::grammar;
use crate::manager::PackageManager;
use crate::npm::NpmVersion;
use crate::package_json::PackageJson;
use crate::pnpm;
use crate::pnpm::PnpmVersion;
use crate::source::Spanned;
use crate::text;
use crate::version;
use crate::version::Version;
use crate::yarn;
use crate::yarn::YarnVersion;

verus! {

/// A search of the repository for one family of package managers.
#[derive(Debug, PartialEq, Eq, Clone, Copy, Structural)]
pub enum Detector {
    Pnpm,
    Npm,
    Yarn,
    Bun,
}

impl Detector {
    /// The binary of the managers that the detector searches for.
    pub open spec fn family_binary(self) -> Seq<char> {
        match self {
            Detector::Pnpm => "pnpm"@,
            Detector::Npm => "npm"@,
            Detector::Yarn => "yarn"@,
            Detector::Bun => "bun"@,
        }
    }
}

/// A version within one family of package managers.
pub trait Release {
    /// The manager that the version is.
    spec fn manager_of(&self) -> PackageManager;

    /// Returns the manager that the version is.
    fn manager(&self) -> (manager: PackageManager)
        ensures
            manager == self.manager_of(),
    ;
}

/// The outcome of a detector, with the manager that was found.
pub open spec fn outcome_of<R: Release>(outcome: Result<R, Error>) -> Result<
    PackageManager,
    Error,
> {
    match outcome {
        Ok(release) => Ok(release.manager_of()),
        Err(error) => Err(error),
    }
}

/// The outcomes of a detector, with the managers that were found.
pub open spec fn outcomes_of<R: Release>(outcomes: Seq<Result<R, Error>>) -> Seq<
    Result<PackageManager, Error>,
> {
    outcomes.map_values(|outcome: Result<R, Error>| outcome_of(outcome))
}

/// Turns the versions among the outcomes of a detector into managers.
fn managers_among<R: Release>(outcomes: Vec<Result<R, Error>>) -> (found: Vec<
    Result<PackageManager, Error>,
>)
    ensures
        found@ == outcomes_of(outcomes@),
{
    let ghost all = outcomes@;
    let mut rest = outcomes;
    let mut found: Vec<Result<PackageManager, Error>> = Vec::new();
    while rest.len() > 0
        invariant
            found@ + outcomes_of(rest@) == outcomes_of(all),
        decreases rest@.len(),
    {
        let ghost before = rest@;
        let ghost found_before = found@;
        match rest.remove(0) {
            Ok(release) => found.push(Ok(release.manager())),
            Err(error) => found.push(Err(error)),
        }
        assert(found@ =~= found_before.push(outcome_of(before[0])));
        assert(found@ + outcomes_of(rest@) =~= found_before + outcomes_of(before));
    }
    assert(found@ + outcomes_of(rest@) =~= found@);
    found
}

/// Returns the manager that a detector yields first, if it yields one and no error.
fn first_manager<R: Release>(outcomes: &Vec<Result<R, Error>>) -> (found: Option<PackageManager>)
    ensures
        found == match first_outcome(outcomes_of(outcomes@)) {
            Ok(manager) => Some(manager),
            Err(_) => None,
        },
{
    if outcomes.len() == 0 {
        return None;
    }
    assert(outcomes_of(outcomes@)[0] == outcome_of(outcomes@[0]));
    match &outcomes[0] {
        Ok(release) => Some(release.manager()),
        Err(_) => None,
    }
}

/// What each detector yields in a repository, in the order in which it does.
#[derive(Debug, PartialEq, Eq)]
pub struct Detectors {
    pub pnpm: Vec<Result<PnpmVersion, Error>>,
    pub npm: Vec<Result<NpmVersion, Error>>,
    pub yarn: Vec<Result<YarnVersion, Error>>,
    pub bun: Vec<Result<BunVersion, Error>>,
}

impl Detectors {
    /// Detectors that find nothing.
    pub fn none() -> (detectors: Self)
        ensures
            detectors.pnpm@ == Seq::<Result<PnpmVersion, Error>>::empty(),
            detectors.npm@ == Seq::<Result<NpmVersion, Error>>::empty(),
            detectors.yarn@ == Seq::<Result<YarnVersion, Error>>::empty(),
            detectors.bun@ == Seq::<Result<BunVersion, Error>>::empty(),
            detectors.outcomes() == Seq::<Result<PackageManager, Error>>::empty(),
    {
        let detectors = Detectors {
            pnpm: Vec::new(),
            npm: Vec::new(),
            yarn: Vec::new(),
            bun: Vec::new(),
        };
        assert(detectors.outcomes() =~= Seq::<Result<PackageManager, Error>>::empty());
        detectors
    }

    /// What one detector yields.
    pub open spec fn of(self, detector: Detector) -> Seq<Result<PackageManager, Error>> {
        match detector {
            Detector::Pnpm => outcomes_of(self.pnpm@),
            Detector::Npm => outcomes_of(self.npm@),
            Detector::Yarn => outcomes_of(self.yarn@),
            Detector::Bun => outcomes_of(self.bun@),
        }
    }

    /// What all detectors yield, one detector after the other.
    pub open spec fn outcomes(self) -> Seq<Result<PackageManager, Error>> {
        self.of(Detector::Pnpm) + self.of(Detector::Npm) + self.of(Detector::Yarn) + self.of(
            Detector::Bun,
        )
    }
}

/// What a `package.json` says about its package manager.
#[derive(Debug, PartialEq, Eq, Clone, Copy, Structural)]
pub enum Declaration {
    /// It is this one.
    Known(PackageManager),
    /// It is the one that this detector yields first.
    Delegated(Detector),
}

/// The declaration with a URL in the place of a version. Which version of Yarn or pnpm stands
/// behind the URL is for a detector to find out.
pub open spec fn url_declaration(manager: Seq<char>) -> Declaration {
    if manager == "npm"@ {
        Declaration::Known(PackageManager::Npm)
    } else if manager == "bun"@ {
        Declaration::Known(PackageManager::Bun)
    } else if manager == "yarn"@ {
        Declaration::Delegated(Detector::Yarn)
    } else {
        Declaration::Delegated(Detector::Pnpm)
    }
}

/// The manager with the given name and major version.
pub open spec fn versioned_manager(manager: Seq<char>, major: int) -> PackageManager {
    if manager == "npm"@ {
        PackageManager::Npm
    } else if manager == "bun"@ {
        PackageManager::Bun
    } else if manager == "yarn"@ {
        yarn::yarn_of(major)
    } else {
        pnpm::pnpm_of(major)
    }
}

/// What the parsed declaration of a manager and its version says; `None` if the version is not
/// one.
pub open spec fn parsed_declaration(manager: Seq<char>, version: Seq<char>) -> Option<Declaration> {
    if "http"@.is_prefix_of(version) {
        Some(url_declaration(manager))
    } else {
        match version::parsed_version(version) {
            Ok((major, _, _)) => Some(Declaration::Known(versioned_manager(manager, major as int))),
            Err(_) => None,
        }
    }
}

/// What a `package.json` says about its package manager; `None` if it says nothing, or nothing
/// valid.
pub open spec fn declared(package_json: PackageJson) -> Option<Declaration> {
    match package_json.package_manager {
        Some(field) => match grammar::declaration(field.value@) {
            Some((manager, version)) => parsed_declaration(manager, version),
            None => None,
        },
        None => None,
    }
}

/// Whether `declaration` is what the `packageManager` field says as it is written: with a URL, what
/// a URL says; else the manager that goes by the major version, in ASCII digits.
pub open spec fn is_as_written(package_json: PackageJson, declaration: Declaration) -> bool {
    &&& package_json.package_manager matches Some(field)
    &&& grammar::declaration(field.value@) matches Some((manager, version))
    &&& if "http"@.is_prefix_of(version) {
        declaration == url_declaration(manager)
    } else {
        &&& version::version_core(version) matches Some((numbers, _))
        &&& declaration == Declaration::Known(versioned_manager(manager, numbers.0 as int))
    }
}

/// The manager that the `packageManager` field declares with three numbers, alone or with a
/// label; `None` if it holds anything else.
pub open spec fn plainly_declared(package_json: PackageJson) -> Option<PackageManager> {
    match package_json.package_manager {
        Some(field) => match grammar::declaration(field.value@) {
            Some((manager, version)) => match version::version_core(version) {
                Some((numbers, _)) => if version::is_plain_version(version) {
                    Some(versioned_manager(manager, numbers.0 as int))
                } else {
                    None
                },
                None => None,
            },
            None => None,
        },
        None => None,
    }
}

/// Whether the binary of `manager` is the one that the `packageManager` field names.
pub open spec fn has_named_binary(package_json: PackageJson, manager: PackageManager) -> bool {
    &&& package_json.package_manager matches Some(field)
    &&& grammar::declaration(field.value@) matches Some((named, _))
    &&& manager.command_text() == named
}

/// Whether `span` and `text` show `field` as the place of an error.
pub open spec fn shows_field(
    span: Option<crate::source::SourceSpan>,
    text: crate::source::NamedSource,
    field: Spanned,
) -> bool {
    &&& span == field.shown_span()
    &&& text.name@ == field.shown_name("package.json"@)
    &&& text.source@ == field.shown_text()
}

/// Whether `error` says that `field` does not match the pattern.
pub open spec fn is_invalid_package_manager(error: Error, field: Spanned) -> bool {
    &&& error matches Error::InvalidPackageManager { pattern, span, text }
    &&& pattern@ == grammar::PACKAGE_MANAGER_PATTERN@
    &&& shows_field(span, text, field)
}

/// Whether `error` says, with this explanation, that the version in `field` is not one.
pub open spec fn is_invalid_version(error: Error, explained: Seq<char>, field: Spanned) -> bool {
    &&& error matches Error::InvalidVersion { explanation, span, text }
    &&& explanation@ == explained
    &&& shows_field(span, text, field)
}

/// Whether `error` says why `package_json` declares no package manager.
pub open spec fn is_declaration_error(package_json: PackageJson, error: Error) -> bool {
    match package_json.package_manager {
        Some(field) => match grammar::declaration(field.value@) {
            Some((_, version)) => {
                &&& version::parsed_version(version) is Err
                &&& is_invalid_version(error, version::parsed_version(version)->Err_0, field)
            },
            None => is_invalid_package_manager(error, field),
        },
        None => error == Error::MissingPackageManager,
    }
}

/// The first outcome of a detector; an error if it yields none.
pub open spec fn first_outcome(outcomes: Seq<Result<PackageManager, Error>>) -> Result<
    PackageManager,
    Error,
> {
    if outcomes.len() == 0 {
        Err(Error::MissingPackageManager)
    } else {
        outcomes[0]
    }
}

/// What `declaration` comes to where the detectors yield what they do in `detectors`.
pub open spec fn resolved(declaration: Declaration, detectors: Detectors) -> Result<
    PackageManager,
    Error,
> {
    match declaration {
        Declaration::Known(manager) => Ok(manager),
        Declaration::Delegated(detector) => first_outcome(detectors.of(detector)),
    }
}

/// The first error among `outcomes`.
pub open spec fn first_error(outcomes: Seq<Result<PackageManager, Error>>) -> Option<Error>
    decreases outcomes.len(),
{
    if outcomes.len() == 0 {
        None
    } else {
        match outcomes[0] {
            Err(error) => Some(error),
            Ok(_) => first_error(outcomes.drop_first()),
        }
    }
}

/// The names of the managers among `outcomes`, where none is an error.
pub open spec fn outcome_names(outcomes: Seq<Result<PackageManager, Error>>) -> Seq<Seq<char>> {
    outcomes.map_values(|outcome: Result<PackageManager, Error>| outcome->Ok_0.name_text())
}

/// Whether `result` is what `outcomes` amount to: the first error if there is one, the manager if
/// there is exactly one, and else an error that says that there is none or names them all.
pub open spec fn is_detected(
    outcomes: Seq<Result<PackageManager, Error>>,
    result: Result<PackageManager, Error>,
) -> bool {
    match first_error(outcomes) {
        Some(error) => result == Err::<PackageManager, Error>(error),
        None => if outcomes.len() == 0 {
            result == Err::<PackageManager, Error>(Error::NoPackageManager(NoPackageManager))
        } else if outcomes.len() == 1 {
            result == outcomes[0]
        } else {
            &&& result matches Err(Error::MultiplePackageManagers { managers })
            &&& text::texts(managers@) == outcome_names(outcomes)
        },
    }
}

proof fn lemma_no_error_so_far(outcomes: Seq<Result<PackageManager, Error>>, n: int)
    requires
        0 <= n <= outcomes.len(),
        forall|j: int| 0 <= j < n ==> (#[trigger] outcomes[j]) is Ok,
    ensures
        first_error(outcomes) == first_error(outcomes.skip(n)),
    decreases n,
{
    if n == 0 {
        assert(outcomes.skip(0) =~= outcomes);
    } else {
        lemma_no_error_so_far(outcomes, n - 1);
        assert(outcomes.skip(n - 1).drop_first() =~= outcomes.skip(n));
        assert(outcomes.skip(n - 1)[0] == outcomes[n - 1]);
    }
}

impl PackageManager {
    /// Takes the `packageManager` field apart into the manager's name and its version.
    pub fn parse_package_manager_string(manager: &Spanned) -> (parsed: Result<(&str, &str), Error>)
        ensures
            match parsed {
                Ok((name, version)) => grammar::declaration(manager.value@) == Some(
                    (name@, version@),
                ),
                Err(error) => grammar::declaration(manager.value@) is None
                    && is_invalid_package_manager(error, *manager),
            },
            parsed is Ok <==> grammar::declaration(manager.value@) is Some,
            parsed matches Err(error) ==> {
                &&& error matches Error::InvalidPackageManager { pattern, span, text }
                &&& pattern@ == grammar::PACKAGE_MANAGER_PATTERN@
                &&& span is Some <==> manager.span is Some && manager.text is Some
                &&& span is Some ==> span == manager.span && text.source@ == manager.text->0@
                &&& manager.path is Some ==> text.name@ == manager.path->0@
                &&& manager.path is None ==> text.name@ == "package.json"@
            },
    {
        match grammar::find_declaration(manager.value.as_str()) {
            Some((name, version)) => Ok((name, version)),
            None => {
                let (span, text) = manager.span_and_text("package.json");
                Err(
                    Error::InvalidPackageManager {
                        pattern: grammar::PACKAGE_MANAGER_PATTERN.to_owned(),
                        span,
                        text,
                    },
                )
            },
        }
    }

    /// Decides what a declaration of `manager` with a URL says.
    pub fn declared_with_url(manager: &str) -> (declaration: Declaration)
        requires
            grammar::is_manager_name(manager@),
        ensures
            declaration == url_declaration(manager@),
            manager@ == "npm"@ <==> declaration == Declaration::Known(PackageManager::Npm),
            manager@ == "bun"@ <==> declaration == Declaration::Known(PackageManager::Bun),
            manager@ == "yarn"@ <==> declaration == Declaration::Delegated(Detector::Yarn),
            manager@ == "pnpm"@ <==> declaration == Declaration::Delegated(Detector::Pnpm),
    {
        proof {
            lemma_declared_names_differ();
        }
        if text::same_text(manager, "npm") {
            Declaration::Known(PackageManager::Npm)
        } else if text::same_text(manager, "bun") {
            Declaration::Known(PackageManager::Bun)
        } else if text::same_text(manager, "yarn") {
            Declaration::Delegated(Detector::Yarn)
        } else {
            Declaration::Delegated(Detector::Pnpm)
        }
    }

    /// Decides which manager a declaration of `manager` with a version says, given what the
    /// parser made of the version. `field` is shown in the error.
    pub fn declared_with_version(
        manager: &str,
        parsed: Result<Version, String>,
        field: &Spanned,
    ) -> (declared: Result<PackageManager, Error>)
        requires
            grammar::is_manager_name(manager@),
        ensures
            match parsed {
                Ok(version) => declared == Ok::<PackageManager, Error>(
                    versioned_manager(manager@, version.major as int),
                ),
                Err(explanation) => declared is Err && is_invalid_version(
                    declared->Err_0,
                    explanation@,
                    *field,
                ),
            },
            declared is Ok <==> parsed is Ok,
            parsed matches Ok(version) ==> {
                &&& manager@ == "npm"@ <==> declared->Ok_0 is Npm
                &&& manager@ == "bun"@ <==> declared->Ok_0 is Bun
                &&& manager@ == "yarn"@ && version.major >= 2 <==> declared->Ok_0 is Berry
                &&& manager@ == "yarn"@ && version.major <= 1 <==> declared->Ok_0 is Yarn
                &&& manager@ == "pnpm"@ && version.major <= 6 <==> declared->Ok_0 is Pnpm6
                &&& manager@ == "pnpm"@ && 7 <= version.major <= 8 <==> declared->Ok_0 is Pnpm
                &&& manager@ == "pnpm"@ && version.major >= 9 <==> declared->Ok_0 is Pnpm9
            },
    {
        proof {
            lemma_declared_names_differ();
        }
        match parsed {
            Ok(version) => Ok(
                if text::same_text(manager, "npm") {
                    PackageManager::Npm
                } else if text::same_text(manager, "bun") {
                    PackageManager::Bun
                } else if text::same_text(manager, "yarn") {
                    yarn::detect_berry_or_yarn(&version)
                } else {
                    pnpm::detect_pnpm6_or_pnpm(&version)
                },
            ),
            Err(explanation) => {
                let (span, text) = field.span_and_text("package.json");
                Err(Error::InvalidVersion { explanation, span, text })
            },
        }
    }

    /// Reads what `package_json` says about its package manager.
    pub fn read_declaration(package_json: &PackageJson) -> (read: Result<Declaration, Error>)
        ensures
            match read {
                Ok(declaration) => declared(*package_json) == Some(declaration),
                Err(error) => declared(*package_json) is None && is_declaration_error(
                    *package_json,
                    error,
                ),
            },
            read matches Ok(declaration) ==> is_as_written(*package_json, declaration),
            plainly_declared(*package_json) matches Some(manager) ==> read == Ok::<
                Declaration,
                Error,
            >(Declaration::Known(manager)),
    {
        let field = match &package_json.package_manager {
            Some(field) => field,
            None => return Err(Error::MissingPackageManager),
        };
        let (manager, version) = match Self::parse_package_manager_string(field) {
            Ok(parsed) => parsed,
            Err(error) => return Err(error),
        };
        proof {
            grammar::lemma_declaration_is_declared(field.value@);
            grammar::lemma_url_or_numbers(version@);
            grammar::lemma_version_begins(version@);
        }
        // a URL says nothing about the version
        if text::starts_with(version, "http") {
            proof {
                reveal_strlit("http");
                assert(version@[0] == "http"@[0]);
            }
            Ok(Self::declared_with_url(manager))
        } else {
            let parsed = version::parse_version(version);
            match Self::declared_with_version(manager, parsed, field) {
                Ok(known) => Ok(Declaration::Known(known)),
                Err(error) => Err(error),
            }
        }
    }

    /// Tries to extract the package manager from package.json. The detectors are consulted only
    /// if the version is a URL and does not tell which manager it is.
    pub fn get_package_manager(detectors: Detectors, package_json: &PackageJson) -> (found: Result<
        Self,
        Error,
    >)
        ensures
            match declared(*package_json) {
                Some(declaration) => found == resolved(declaration, detectors),
                None => found is Err && is_declaration_error(*package_json, found->Err_0),
            },
            declared(*package_json) matches Some(declaration) ==> is_as_written(
                *package_json,
                declaration,
            ),
            found matches Ok(manager) ==> has_named_binary(*package_json, manager),
            plainly_declared(*package_json) matches Some(manager) ==> found == Ok::<Self, Error>(
                manager,
            ),
            package_json.package_manager is None ==> found == Err::<Self, Error>(
                Error::MissingPackageManager,
            ),
            package_json.package_manager matches Some(field) ==> (grammar::declaration(
                field.value@,
            ) is None ==> found is Err && found->Err_0 is InvalidPackageManager),
            package_json.package_manager matches Some(field) ==> (grammar::declaration(
                field.value@,
            ) matches Some((named, version)) ==> {
                let first_yarn = detectors.yarn@[0];
                let first_pnpm = detectors.pnpm@[0];
                if "http"@.is_prefix_of(version) {
                    &&& named == "npm"@ ==> found == Ok::<Self, Error>(Self::Npm)
                    &&& named == "bun"@ ==> found == Ok::<Self, Error>(Self::Bun)
                    &&& named == "yarn"@ ==> if detectors.yarn@.len() == 0 {
                        found == Err::<Self, Error>(Error::MissingPackageManager)
                    } else {
                        match first_yarn {
                            Ok(YarnVersion::Yarn1) => found == Ok::<Self, Error>(Self::Yarn),
                            Ok(YarnVersion::Berry) => found == Ok::<Self, Error>(Self::Berry),
                            Err(error) => found == Err::<Self, Error>(error),
                        }
                    }
                    &&& named == "pnpm"@ ==> if detectors.pnpm@.len() == 0 {
                        found == Err::<Self, Error>(Error::MissingPackageManager)
                    } else {
                        match first_pnpm {
                            Ok(PnpmVersion::Pnpm6) => found == Ok::<Self, Error>(Self::Pnpm6),
                            Ok(PnpmVersion::Pnpm7And8) => found == Ok::<Self, Error>(Self::Pnpm),
                            Ok(PnpmVersion::Pnpm9) => found == Ok::<Self, Error>(Self::Pnpm9),
                            Err(error) => found == Err::<Self, Error>(error),
                        }
                    }
                } else {
                    &&& version::is_plain_version(version) ==> found is Ok
                    &&& found is Err ==> found->Err_0 is InvalidVersion
                    &&& found matches Ok(manager) ==> {
                        &&& version::version_core(version) matches Some((numbers, _))
                        &&& named == "npm"@ <==> manager is Npm
                        &&& named == "bun"@ <==> manager is Bun
                        &&& named == "yarn"@ && numbers.0 >= 2 <==> manager is Berry
                        &&& named == "yarn"@ && numbers.0 <= 1 <==> manager is Yarn
                        &&& named == "pnpm"@ && numbers.0 <= 6 <==> manager is Pnpm6
                        &&& named == "pnpm"@ && 7 <= numbers.0 <= 8 <==> manager is Pnpm
                        &&& named == "pnpm"@ && numbers.0 >= 9 <==> manager is Pnpm9
                    }
                }
            }),
    {
        Self::read_package_manager(detectors, package_json)
    }

    /// Reads the package manager from package.json.
    pub fn read_package_manager(detectors: Detectors, pkg: &PackageJson) -> (found: Result<
        Self,
        Error,
    >)
        ensures
            match declared(*pkg) {
                Some(declaration) => found == resolved(declaration, detectors),
                None => found is Err && is_declaration_error(*pkg, found->Err_0),
            },
            declared(*pkg) matches Some(declaration) ==> is_as_written(*pkg, declaration),
            found matches Ok(manager) ==> has_named_binary(*pkg, manager),
            plainly_declared(*pkg) matches Some(manager) ==> found == Ok::<Self, Error>(manager),
            pkg.package_manager is None ==> found == Err::<Self, Error>(
                Error::MissingPackageManager,
            ),
            pkg.package_manager matches Some(field) ==> (grammar::declaration(
                field.value@,
            ) is None ==> found is Err && found->Err_0 is InvalidPackageManager),
            pkg.package_manager matches Some(field) ==> (grammar::declaration(
                field.value@,
            ) matches Some((named, version)) ==> {
                let first_yarn = detectors.yarn@[0];
                let first_pnpm = detectors.pnpm@[0];
                if "http"@.is_prefix_of(version) {
                    &&& named == "npm"@ ==> found == Ok::<Self, Error>(Self::Npm)
                    &&& named == "bun"@ ==> found == Ok::<Self, Error>(Self::Bun)
                    &&& named == "yarn"@ ==> if detectors.yarn@.len() == 0 {
                        found == Err::<Self, Error>(Error::MissingPackageManager)
                    } else {
                        match first_yarn {
                            Ok(YarnVersion::Yarn1) => found == Ok::<Self, Error>(Self::Yarn),
                            Ok(YarnVersion::Berry) => found == Ok::<Self, Error>(Self::Berry),
                            Err(error) => found == Err::<Self, Error>(error),
                        }
                    }
                    &&& named == "pnpm"@ ==> if detectors.pnpm@.len() == 0 {
                        found == Err::<Self, Error>(Error::MissingPackageManager)
                    } else {
                        match first_pnpm {
                            Ok(PnpmVersion::Pnpm6) => found == Ok::<Self, Error>(Self::Pnpm6),
                            Ok(PnpmVersion::Pnpm7And8) => found == Ok::<Self, Error>(Self::Pnpm),
                            Ok(PnpmVersion::Pnpm9) => found == Ok::<Self, Error>(Self::Pnpm9),
                            Err(error) => found == Err::<Self, Error>(error),
                        }
                    }
                } else {
                    &&& version::is_plain_version(version) ==> found is Ok
                    &&& found is Err ==> found->Err_0 is InvalidVersion
                    &&& found matches Ok(manager) ==> {
                        &&& version::version_core(version) matches Some((numbers, _))
                        &&& named == "npm"@ <==> manager is Npm
                        &&& named == "bun"@ <==> manager is Bun
                        &&& named == "yarn"@ && numbers.0 >= 2 <==> manager is Berry
                        &&& named == "yarn"@ && numbers.0 <= 1 <==> manager is Yarn
                        &&& named == "pnpm"@ && numbers.0 <= 6 <==> manager is Pnpm6
                        &&& named == "pnpm"@ && 7 <= numbers.0 <= 8 <==> manager is Pnpm
                        &&& named == "pnpm"@ && numbers.0 >= 9 <==> manager is Pnpm9
                    }
                }
            }),
    {
        proof {
            lemma_declared_names_differ();
            if pkg.package_manager is Some && grammar::declaration(
                pkg.package_manager->0.value@,
            ) is Some {
                grammar::lemma_declaration_is_declared(pkg.package_manager->0.value@);
            }
        }
        let declaration = match Self::read_declaration(pkg) {
            Ok(declaration) => declaration,
            Err(error) => return Err(error),
        };
        proof {
            if resolved(declaration, detectors) is Ok {
                lemma_read_manager_has_the_named_binary(
                    *pkg,
                    detectors,
                    resolved(declaration, detectors)->Ok_0,
                );
            }
        }
        let mut outcomes = match declaration {
            Declaration::Known(manager) => return Ok(manager),
            Declaration::Delegated(Detector::Pnpm) => managers_among(detectors.pnpm),
            Declaration::Delegated(Detector::Npm) => managers_among(detectors.npm),
            Declaration::Delegated(Detector::Yarn) => managers_among(detectors.yarn),
            Declaration::Delegated(Detector::Bun) => managers_among(detectors.bun),
        };
        if outcomes.len() == 0 {
            Err(Error::MissingPackageManager)
        } else {
            outcomes.remove(0)
        }
    }

    /// Tries to detect the package manager from what the detectors found. There has to be exactly
    /// one.
    pub fn detect_package_manager(detectors: Detectors) -> (found: Result<Self, Error>)
        ensures
            is_detected(detectors.outcomes(), found),
            ({
                let yielded = detectors.pnpm@.len() + detectors.npm@.len() + detectors.yarn@.len()
                    + detectors.bun@.len();
                &&& found is Ok ==> yielded == 1
                &&& yielded == 0 ==> found == Err::<Self, Error>(
                    Error::NoPackageManager(NoPackageManager),
                )
            }),
            (forall|i: int| 0 <= i < detectors.pnpm@.len() ==> detectors.pnpm@[i] is Ok) && (forall|
                i: int,
            |
                0 <= i < detectors.npm@.len() ==> detectors.npm@[i] is Ok) && (forall|i: int|
                0 <= i < detectors.yarn@.len() ==> detectors.yarn@[i] is Ok) && (forall|i: int|
                0 <= i < detectors.bun@.len() ==> detectors.bun@[i] is Ok) ==> {
                let yielded = detectors.pnpm@.len() + detectors.npm@.len() + detectors.yarn@.len()
                    + detectors.bun@.len();
                &&& yielded == 1 ==> found is Ok
                &&& yielded >= 2 ==> {
                    &&& found matches Err(Error::MultiplePackageManagers { managers })
                    &&& managers@.len() == yielded
                }
            },
            detectors.pnpm@.len() > 0 && detectors.npm@.len() > 0 ==> found is Err,
            detectors.pnpm@.len() > 0 && detectors.yarn@.len() > 0 ==> found is Err,
            detectors.pnpm@.len() > 0 && detectors.bun@.len() > 0 ==> found is Err,
            detectors.npm@.len() > 0 && detectors.yarn@.len() > 0 ==> found is Err,
            detectors.npm@.len() > 0 && detectors.bun@.len() > 0 ==> found is Err,
            detectors.yarn@.len() > 0 && detectors.bun@.len() > 0 ==> found is Err,
            found matches Ok(manager) ==> {
                &&& manager is Npm <==> detectors.npm@.len() > 0
                &&& manager is Bun <==> detectors.bun@.len() > 0
                &&& manager is Yarn <==> detectors.yarn@.len() > 0 && detectors.yarn@[0]
                    == Ok::<YarnVersion, Error>(YarnVersion::Yarn1)
                &&& manager is Berry <==> detectors.yarn@.len() > 0 && detectors.yarn@[0]
                    == Ok::<YarnVersion, Error>(YarnVersion::Berry)
                &&& manager is Pnpm6 <==> detectors.pnpm@.len() > 0 && detectors.pnpm@[0]
                    == Ok::<PnpmVersion, Error>(PnpmVersion::Pnpm6)
                &&& manager is Pnpm <==> detectors.pnpm@.len() > 0 && detectors.pnpm@[0]
                    == Ok::<PnpmVersion, Error>(PnpmVersion::Pnpm7And8)
                &&& manager is Pnpm9 <==> detectors.pnpm@.len() > 0 && detectors.pnpm@[0]
                    == Ok::<PnpmVersion, Error>(PnpmVersion::Pnpm9)
            },
    {
        proof {
            lemma_every_outcome_takes_part(detectors, 0);
            assert forall|result: Result<Self, Error>| #[trigger]
                is_detected(detectors.outcomes(), result) implies result is Ok ==> {
                &&& detectors.outcomes().len() == 1
                &&& result == detectors.outcomes()[0]
            } by {
                if result is Ok {
                    lemma_detected_manager_is_alone(detectors.outcomes(), result, result->Ok_0);
                }
            }
            if (forall|i: int| 0 <= i < detectors.pnpm@.len() ==> detectors.pnpm@[i] is Ok) && (
            forall|i: int| 0 <= i < detectors.npm@.len() ==> detectors.npm@[i] is Ok) && (forall|
                i: int,
            |
                0 <= i < detectors.yarn@.len() ==> detectors.yarn@[i] is Ok) && (forall|i: int|
                0 <= i < detectors.bun@.len() ==> detectors.bun@[i] is Ok) {
                assert forall|result: Result<Self, Error>| #[trigger]
                    is_detected(detectors.outcomes(), result) implies {
                    let yielded = detectors.outcomes().len();
                    &&& yielded == 1 ==> result is Ok
                    &&& yielded >= 2 ==> {
                        &&& result matches Err(Error::MultiplePackageManagers { managers })
                        &&& managers@.len() == yielded
                    }
                } by {
                    lemma_several_managers_are_all_named(detectors, result);
                }
            }
        }
        let mut outcomes = managers_among(detectors.pnpm);
        let mut npm = managers_among(detectors.npm);
        let mut yarn = managers_among(detectors.yarn);
        let mut bun = managers_among(detectors.bun);
        outcomes.append(&mut npm);
        outcomes.append(&mut yarn);
        outcomes.append(&mut bun);
        assert(outcomes@ =~= detectors.outcomes());
        let mut managers: Vec<String> = Vec::new();
        let mut i: usize = 0;
        while i < outcomes.len()
            invariant
                i <= outcomes@.len(),
                outcomes@ == detectors.outcomes(),
                forall|j: int| 0 <= j < i ==> (#[trigger] outcomes@[j]) is Ok,
                managers@.len() == i,
                forall|j: int|
                    0 <= j < i ==> (#[trigger] managers@[j])@ == outcomes@[j]->Ok_0.name_text(),
            decreases outcomes@.len() - i,
        {
            match &outcomes[i] {
                Ok(manager) => {
                    managers.push(manager.name().to_owned());
                },
                Err(_) => {
                    proof {
                        lemma_no_error_so_far(outcomes@, i as int);
                        assert(outcomes@.skip(i as int)[0] == outcomes@[i as int]);
                    }
                    return outcomes.swap_remove(i);
                },
            }
            i += 1;
        }
        proof {
            lemma_no_error_so_far(outcomes@, i as int);
            assert(text::texts(managers@) =~= outcome_names(outcomes@));
        }
        if outcomes.len() == 0 {
            Err(Error::from(NoPackageManager))
        } else if outcomes.len() == 1 {
            outcomes.swap_remove(0)
        } else {
            Err(Error::MultiplePackageManagers { managers })
        }
    }

    /// Returns the manager that `package_json` declares, with the help of a detector where the
    /// declaration leaves it to one; `None` if it cannot be read.
    pub fn declared_manager(package_json: &PackageJson, detectors: &Detectors) -> (found: Option<
        Self,
    >)
        ensures
            found == match declared(*package_json) {
                Some(declaration) => match resolved(declaration, *detectors) {
                    Ok(manager) => Some(manager),
                    Err(_) => None,
                },
                None => None,
            },
            declared(*package_json) matches Some(declaration) ==> is_as_written(
                *package_json,
                declaration,
            ),
            found matches Some(manager) ==> has_named_binary(*package_json, manager),
            plainly_declared(*package_json) matches Some(manager) ==> found == Some(manager),
            package_json.package_manager is None ==> found is None,
            package_json.package_manager matches Some(field) ==> (grammar::declaration(
                field.value@,
            ) is None ==> found is None),
            package_json.package_manager matches Some(field) ==> (grammar::declaration(
                field.value@,
            ) matches Some((named, version)) ==> {
                let plain = version::is_plain_version(version);
                if "http"@.is_prefix_of(version) {
                    &&& named == "npm"@ ==> found == Some(Self::Npm)
                    &&& named == "bun"@ ==> found == Some(Self::Bun)
                } else {
                    &&& plain ==> found is Some
                    &&& plain ==> {
                        &&& version::version_core(version) matches Some((numbers, _))
                        &&& named == "npm"@ <==> found == Some(Self::Npm)
                        &&& named == "bun"@ <==> found == Some(Self::Bun)
                        &&& named == "yarn"@ && numbers.0 >= 2 <==> found == Some(Self::Berry)
                        &&& named == "yarn"@ && numbers.0 <= 1 <==> found == Some(Self::Yarn)
                        &&& named == "pnpm"@ && numbers.0 <= 6 <==> found == Some(Self::Pnpm6)
                        &&& named == "pnpm"@ && 7 <= numbers.0 <= 8 <==> found == Some(Self::Pnpm)
                        &&& named == "pnpm"@ && numbers.0 >= 9 <==> found == Some(Self::Pnpm9)
                    }
                }
            }),
    {
        proof {
            lemma_declared_names_differ();
            if package_json.package_manager is Some && grammar::declaration(
                package_json.package_manager->0.value@,
            ) is Some {
                grammar::lemma_declaration_is_declared(package_json.package_manager->0.value@);
            }
        }
        let declaration = match Self::read_declaration(package_json) {
            Ok(declaration) => declaration,
            Err(_) => return None,
        };
        proof {
            if resolved(declaration, *detectors) is Ok {
                lemma_read_manager_has_the_named_binary(
                    *package_json,
                    *detectors,
                    resolved(declaration, *detectors)->Ok_0,
                );
            }
        }
        match declaration {
            Declaration::Known(manager) => Some(manager),
            Declaration::Delegated(Detector::Pnpm) => first_manager(&detectors.pnpm),
            Declaration::Delegated(Detector::Npm) => first_manager(&detectors.npm),
            Declaration::Delegated(Detector::Yarn) => first_manager(&detectors.yarn),
            Declaration::Delegated(Detector::Bun) => first_manager(&detectors.bun),
        }
    }

    /// Tries to extract the package manager from package.json, and detects it from what the
    /// detectors found otherwise.
    pub fn read_or_detect_package_manager(
        package_json: &PackageJson,
        detectors: Detectors,
    ) -> (found: Result<Self, Error>)
        ensures
            match declared(*package_json) {
                Some(declaration) => if resolved(declaration, detectors) is Ok {
                    found == resolved(declaration, detectors)
                } else {
                    is_detected(detectors.outcomes(), found)
                },
                None => is_detected(detectors.outcomes(), found),
            },
            declared(*package_json) matches Some(declaration) ==> is_as_written(
                *package_json,
                declaration,
            ),
            plainly_declared(*package_json) matches Some(manager) ==> found == Ok::<Self, Error>(
                manager,
            ),
            package_json.package_manager is None ==> is_detected(detectors.outcomes(), found),
            package_json.package_manager matches Some(field) ==> (grammar::declaration(
                field.value@,
            ) is None ==> is_detected(detectors.outcomes(), found)),
            package_json.package_manager matches Some(field) ==> (grammar::declaration(
                field.value@,
            ) matches Some((named, version)) ==> {
                let plain = version::is_plain_version(version);
                if "http"@.is_prefix_of(version) {
                    &&& named == "npm"@ ==> found == Ok::<Self, Error>(Self::Npm)
                    &&& named == "bun"@ ==> found == Ok::<Self, Error>(Self::Bun)
                } else {
                    &&& plain ==> found is Ok
                    &&& plain ==> {
                        &&& version::version_core(version) matches Some((numbers, _))
                        &&& named == "npm"@ <==> found == Ok::<Self, Error>(Self::Npm)
                        &&& named == "bun"@ <==> found == Ok::<Self, Error>(Self::Bun)
                        &&& named == "yarn"@ && numbers.0 >= 2 <==> found == Ok::<Self, Error>(
                            Self::Berry,
                        )
                        &&& named == "yarn"@ && numbers.0 <= 1 <==> found == Ok::<Self, Error>(
                            Self::Yarn,
                        )
                        &&& named == "pnpm"@ && numbers.0 <= 6 <==> found == Ok::<Self, Error>(
                            Self::Pnpm6,
                        )
                        &&& named == "pnpm"@ && 7 <= numbers.0 <= 8 <==> found == Ok::<Self, Error>(
                            Self::Pnpm,
                        )
                        &&& named == "pnpm"@ && numbers.0 >= 9 <==> found == Ok::<Self, Error>(
                            Self::Pnpm9,
                        )
                    }
                }
            }),
    {
        proof {
            lemma_declared_names_differ();
            if package_json.package_manager is Some && grammar::declaration(
                package_json.package_manager->0.value@,
            ) is Some {
                grammar::lemma_declaration_is_declared(package_json.package_manager->0.value@);
            }
        }
        match Self::declared_manager(package_json, &detectors) {
            Some(manager) => Ok(manager),
            None => Self::detect_package_manager(detectors),
        }
    }
}

/// The manager that a `package.json` declares has the binary that the declaration names.
pub proof fn lemma_declared_manager_has_the_named_binary(
    package_json: PackageJson,
    manager: PackageManager,
)
    requires
        declared(package_json) == Some(Declaration::Known(manager)),
    ensures
        has_named_binary(package_json, manager),
{
    grammar::lemma_declaration_is_declared(package_json.package_manager->0.value@);
}

/// The manager that is read from a `package.json` has the binary that its field names, also where
/// it is left to a detector.
pub proof fn lemma_read_manager_has_the_named_binary(
    package_json: PackageJson,
    detectors: Detectors,
    manager: PackageManager,
)
    requires
        declared(package_json) matches Some(declaration) && resolved(declaration, detectors) == Ok::<
            PackageManager,
            Error,
        >(manager),
    ensures
        has_named_binary(package_json, manager),
{
    match declared(package_json)->0 {
        Declaration::Known(known) => {
            lemma_declared_manager_has_the_named_binary(package_json, known);
        },
        Declaration::Delegated(detector) => {
            lemma_only_urls_of_yarn_and_pnpm_are_delegated(package_json, detector);
            lemma_detectors_keep_to_their_families(detectors, detector, 0);
        },
    }
}

/// Every manager that a detector yields belongs to the family that it searches for.
pub proof fn lemma_detectors_keep_to_their_families(
    detectors: Detectors,
    detector: Detector,
    i: int,
)
    requires
        0 <= i < detectors.of(detector).len(),
    ensures
        detectors.of(detector)[i] matches Ok(manager) ==> manager.command_text()
            == detector.family_binary(),
{
}

/// A field that cannot be taken apart is refused in reading as it is in parsing.
pub proof fn lemma_unparsed_field_is_not_read(
    package_json: PackageJson,
    field: Spanned,
    error: Error,
)
    requires
        package_json.package_manager == Some(field),
        grammar::declaration(field.value@) is None,
    ensures
        declared(package_json) is None,
        is_declaration_error(package_json, error) <==> is_invalid_package_manager(error, field),
{
}

/// The names that can be declared are the names of the managers' binaries, and every manager can be
/// declared by the name of its binary and some major version.
pub proof fn lemma_every_manager_can_be_declared(manager: PackageManager)
    ensures
        grammar::is_manager_name(manager.command_text()),
        exists|major: int|
            0 <= major && #[trigger] versioned_manager(manager.command_text(), major) == manager,
{
    reveal_strlit("npm");
    reveal_strlit("bun");
    reveal_strlit("yarn");
    reveal_strlit("pnpm");
    let major: int = match manager {
        PackageManager::Pnpm6 => 6,
        PackageManager::Pnpm => 8,
        PackageManager::Pnpm9 => 9,
        PackageManager::Berry => 2,
        _ => 1,
    };
    let command = manager.command_text();
    assert(command == "npm"@ ==> command[0] == "npm"@[0]);
    assert(command == "bun"@ ==> command[0] == "bun"@[0]);
    assert(command == "yarn"@ ==> command[0] == "yarn"@[0]);
    assert(versioned_manager(command, major) == manager);
}

/// Only Yarn and pnpm, declared with a URL, are left to a detector, and each to its own.
pub proof fn lemma_only_urls_of_yarn_and_pnpm_are_delegated(
    package_json: PackageJson,
    detector: Detector,
)
    requires
        declared(package_json) == Some(Declaration::Delegated(detector)),
    ensures
        package_json.package_manager matches Some(field) && grammar::declaration(
            field.value@,
        ) matches Some((named, version)) && "http"@.is_prefix_of(version) && (detector is Yarn
            && named == "yarn"@ || detector is Pnpm && named == "pnpm"@),
{
    grammar::lemma_declaration_is_declared(package_json.package_manager->0.value@);
}

/// A manager's name with three numbers behind an `@`, alone or with a label, declares the manager
/// that goes by the first number.
pub proof fn lemma_plain_declaration_is_read(
    package_json: PackageJson,
    manager: Seq<char>,
    version: Seq<char>,
)
    requires
        grammar::is_manager_name(manager),
        version::is_plain_version(version),
        package_json.package_manager matches Some(field) && field.value@ == manager + "@"@
            + version,
    ensures
        version::version_core(version) matches Some((numbers, _)) && plainly_declared(
            package_json,
        ) == Some(versioned_manager(manager, numbers.0 as int)),
{
    version::lemma_plain_version_is_version(version);
    grammar::lemma_declared_is_found(manager, version);
}

/// A declared manager comes out whatever the detectors yield, and a delegated one depends on the
/// first outcome of its detector alone.
pub proof fn lemma_only_the_delegate_matters(
    declaration: Declaration,
    one: Detectors,
    other: Detectors,
)
    requires
        declaration matches Declaration::Delegated(detector) ==> {
            &&& one.of(detector).len() > 0 <==> other.of(detector).len() > 0
            &&& one.of(detector).len() > 0 ==> one.of(detector)[0] == other.of(detector)[0]
        },
    ensures
        resolved(declaration, one) == resolved(declaration, other),
{
}

/// Whatever the detectors yield after an error does not matter.
pub proof fn lemma_outcomes_after_an_error_do_not_matter(
    outcomes: Seq<Result<PackageManager, Error>>,
    more: Seq<Result<PackageManager, Error>>,
    result: Result<PackageManager, Error>,
)
    requires
        first_error(outcomes) is Some,
    ensures
        first_error(outcomes + more) == first_error(outcomes),
        is_detected(outcomes + more, result) <==> is_detected(outcomes, result),
    decreases outcomes.len(),
{
    assert((outcomes + more)[0] == outcomes[0]);
    if outcomes[0] is Ok {
        assert((outcomes + more).drop_first() =~= outcomes.drop_first() + more);
        lemma_outcomes_after_an_error_do_not_matter(outcomes.drop_first(), more, result);
    }
}

/// A manager is detected if and only if it is the only thing that the detectors yield.
pub proof fn lemma_detected_manager_is_alone(
    outcomes: Seq<Result<PackageManager, Error>>,
    result: Result<PackageManager, Error>,
    manager: PackageManager,
)
    requires
        is_detected(outcomes, result),
    ensures
        result == Ok::<PackageManager, Error>(manager) <==> outcomes == seq![
            Ok::<PackageManager, Error>(manager),
        ],
{
    if result == Ok::<PackageManager, Error>(manager) {
        assert(outcomes =~= seq![Ok::<PackageManager, Error>(manager)]);
    }
    if outcomes == seq![Ok::<PackageManager, Error>(manager)] {
        assert(first_error(outcomes.drop_first()) is None);
        assert(first_error(outcomes) is None);
    }
}

proof fn lemma_declared_names_differ()
    ensures
        "npm"@ != "bun"@,
        "npm"@ != "yarn"@,
        "npm"@ != "pnpm"@,
        "bun"@ != "yarn"@,
        "bun"@ != "pnpm"@,
        "yarn"@ != "pnpm"@,
{
    reveal_strlit("npm");
    reveal_strlit("bun");
    reveal_strlit("yarn");
    reveal_strlit("pnpm");
    assert("npm"@[0] == 'n' && "bun"@[0] == 'b' && "yarn"@[0] == 'y' && "pnpm"@[0] == 'p');
}

/// Whatever a detector yields takes part in detection, each outcome once: first those of pnpm,
/// behind them those of npm, of Yarn and of Bun, each detector's in their order.
pub proof fn lemma_every_outcome_takes_part(detectors: Detectors, i: int)
    ensures
        ({
            let outcomes = detectors.outcomes();
            let pnpm = detectors.pnpm@;
            let npm = detectors.npm@;
            let yarn = detectors.yarn@;
            let bun = detectors.bun@;
            &&& outcomes.len() == pnpm.len() + npm.len() + yarn.len() + bun.len()
            &&& 0 <= i < pnpm.len() ==> outcomes[i] == match pnpm[i] {
                Ok(PnpmVersion::Pnpm6) => Ok::<_, Error>(PackageManager::Pnpm6),
                Ok(PnpmVersion::Pnpm7And8) => Ok(PackageManager::Pnpm),
                Ok(PnpmVersion::Pnpm9) => Ok(PackageManager::Pnpm9),
                Err(error) => Err(error),
            }
            &&& 0 <= i < npm.len() ==> outcomes[pnpm.len() + i] == match npm[i] {
                Ok(_) => Ok::<_, Error>(PackageManager::Npm),
                Err(error) => Err(error),
            }
            &&& 0 <= i < yarn.len() ==> outcomes[pnpm.len() + npm.len() + i] == match yarn[i] {
                Ok(YarnVersion::Yarn1) => Ok::<_, Error>(PackageManager::Yarn),
                Ok(YarnVersion::Berry) => Ok(PackageManager::Berry),
                Err(error) => Err(error),
            }
            &&& 0 <= i < bun.len() ==> outcomes[pnpm.len() + npm.len() + yarn.len() + i]
                == match bun[i] {
                Ok(_) => Ok::<_, Error>(PackageManager::Bun),
                Err(error) => Err(error),
            }
        }),
{
}

/// Each detector is looked up by itself: what it yields is what its own field holds, in the same
/// order, whatever the others yield.
pub proof fn lemma_detectors_are_told_apart(detectors: Detectors, i: int)
    ensures
        detectors.of(Detector::Pnpm).len() == detectors.pnpm@.len(),
        detectors.of(Detector::Npm).len() == detectors.npm@.len(),
        detectors.of(Detector::Yarn).len() == detectors.yarn@.len(),
        detectors.of(Detector::Bun).len() == detectors.bun@.len(),
        0 <= i < detectors.pnpm@.len() ==> detectors.of(Detector::Pnpm)[i]
            == match detectors.pnpm@[i] {
            Ok(PnpmVersion::Pnpm6) => Ok::<_, Error>(PackageManager::Pnpm6),
            Ok(PnpmVersion::Pnpm7And8) => Ok(PackageManager::Pnpm),
            Ok(PnpmVersion::Pnpm9) => Ok(PackageManager::Pnpm9),
            Err(error) => Err(error),
        },
        0 <= i < detectors.npm@.len() ==> detectors.of(Detector::Npm)[i]
            == match detectors.npm@[i] {
            Ok(_) => Ok::<_, Error>(PackageManager::Npm),
            Err(error) => Err(error),
        },
        0 <= i < detectors.yarn@.len() ==> detectors.of(Detector::Yarn)[i]
            == match detectors.yarn@[i] {
            Ok(YarnVersion::Yarn1) => Ok::<_, Error>(PackageManager::Yarn),
            Ok(YarnVersion::Berry) => Ok(PackageManager::Berry),
            Err(error) => Err(error),
        },
        0 <= i < detectors.bun@.len() ==> detectors.of(Detector::Bun)[i]
            == match detectors.bun@[i] {
            Ok(_) => Ok::<_, Error>(PackageManager::Bun),
            Err(error) => Err(error),
        },
{
}

/// A manager is detected only where the detectors yield one outcome in all; two detectors that
/// both yield something never come to a manager.
pub proof fn lemma_two_detectors_do_not_agree(
    detectors: Detectors,
    result: Result<PackageManager, Error>,
)
    requires
        is_detected(detectors.outcomes(), result),
    ensures
        ({
            let yielded = detectors.pnpm@.len() + detectors.npm@.len() + detectors.yarn@.len()
                + detectors.bun@.len();
            &&& result is Ok ==> yielded == 1
            &&& yielded == 0 ==> result == Err::<PackageManager, Error>(
                Error::NoPackageManager(NoPackageManager),
            )
            &&& yielded == 1 && !(result is Ok) ==> {
                ||| detectors.pnpm@.len() == 1 && detectors.pnpm@[0] is Err
                ||| detectors.npm@.len() == 1 && detectors.npm@[0] is Err
                ||| detectors.yarn@.len() == 1 && detectors.yarn@[0] is Err
                ||| detectors.bun@.len() == 1 && detectors.bun@[0] is Err
            }
        }),
        detectors.pnpm@.len() > 0 && detectors.npm@.len() > 0 ==> result is Err,
        detectors.pnpm@.len() > 0 && detectors.yarn@.len() > 0 ==> result is Err,
        detectors.pnpm@.len() > 0 && detectors.bun@.len() > 0 ==> result is Err,
        detectors.npm@.len() > 0 && detectors.yarn@.len() > 0 ==> result is Err,
        detectors.npm@.len() > 0 && detectors.bun@.len() > 0 ==> result is Err,
        detectors.yarn@.len() > 0 && detectors.bun@.len() > 0 ==> result is Err,
{
    let outcomes = detectors.outcomes();
    lemma_every_outcome_takes_part(detectors, 0);
    if result is Ok {
        lemma_detected_manager_is_alone(outcomes, result, result->Ok_0);
    }
    if outcomes.len() == 1 && outcomes[0] is Ok {
        lemma_detected_manager_is_alone(outcomes, result, outcomes[0]->Ok_0);
        assert(outcomes =~= seq![outcomes[0]]);
    }
}

/// What outcomes amount to: an error with nothing but managers in front of it is the result; one
/// manager alone is the result; more than one are all named, in their order; and nothing is
/// reported as such.
pub proof fn lemma_detection_goes_by_the_first_error(
    outcomes: Seq<Result<PackageManager, Error>>,
    result: Result<PackageManager, Error>,
    n: int,
)
    requires
        is_detected(outcomes, result),
        0 <= n <= outcomes.len(),
        forall|j: int| 0 <= j < n ==> (#[trigger] outcomes[j]) is Ok,
    ensures
        n < outcomes.len() && outcomes[n] is Err ==> result == outcomes[n],
        n == outcomes.len() && n == 0 ==> result == Err::<PackageManager, Error>(
            Error::NoPackageManager(NoPackageManager),
        ),
        n == outcomes.len() && n == 1 ==> result == outcomes[0],
        n == outcomes.len() && n >= 2 ==> {
            &&& result matches Err(Error::MultiplePackageManagers { managers })
            &&& managers@.len() == n
            &&& forall|j: int|
                0 <= j < n ==> (#[trigger] managers@[j])@ == (outcomes[j]->Ok_0).name_text()
        },
{
    lemma_no_error_so_far(outcomes, n);
    if n < outcomes.len() {
        assert(outcomes.skip(n)[0] == outcomes[n]);
    } else if n >= 2 {
        let managers = match result {
            Err(Error::MultiplePackageManagers { managers }) => managers,
            _ => arbitrary(),
        };
        assert(text::texts(managers@) == outcome_names(outcomes));
        assert(text::texts(managers@).len() == managers@.len());
        assert forall|j: int| 0 <= j < n implies (#[trigger] managers@[j])@ == (
        outcomes[j]->Ok_0).name_text() by {
            assert(text::texts(managers@)[j] == managers@[j]@);
            assert(outcome_names(outcomes)[j] == (outcomes[j]->Ok_0).name_text());
        }
    }
}

/// Where the detectors yield managers and no error, a manager that is alone is detected, and more
/// than one are all named: one name for each thing that is yielded.
pub proof fn lemma_several_managers_are_all_named(
    detectors: Detectors,
    result: Result<PackageManager, Error>,
)
    requires
        is_detected(detectors.outcomes(), result),
        forall|i: int| 0 <= i < detectors.pnpm@.len() ==> detectors.pnpm@[i] is Ok,
        forall|i: int| 0 <= i < detectors.npm@.len() ==> detectors.npm@[i] is Ok,
        forall|i: int| 0 <= i < detectors.yarn@.len() ==> detectors.yarn@[i] is Ok,
        forall|i: int| 0 <= i < detectors.bun@.len() ==> detectors.bun@[i] is Ok,
    ensures
        ({
            let yielded = detectors.pnpm@.len() + detectors.npm@.len() + detectors.yarn@.len()
                + detectors.bun@.len();
            &&& yielded == 1 ==> result is Ok
            &&& yielded >= 2 ==> {
                &&& result matches Err(Error::MultiplePackageManagers { managers })
                &&& managers@.len() == yielded
                &&& forall|i: int|
                    0 <= i < yielded ==> (#[trigger] managers@[i])@ == (
                    detectors.outcomes()[i]->Ok_0).name_text()
            }
        }),
{
    let outcomes = detectors.outcomes();
    let (a, b, c) = (
        detectors.pnpm@.len() as int,
        detectors.npm@.len() as int,
        detectors.yarn@.len() as int,
    );
    lemma_every_outcome_takes_part(detectors, 0);
    assert forall|k: int| 0 <= k < outcomes.len() implies (#[trigger] outcomes[k]) is Ok by {
        if k < a {
            lemma_every_outcome_takes_part(detectors, k);
            assert(detectors.pnpm@[k] is Ok);
        } else if k < a + b {
            lemma_every_outcome_takes_part(detectors, k - a);
            assert(detectors.npm@[k - a] is Ok);
        } else if k < a + b + c {
            lemma_every_outcome_takes_part(detectors, k - a - b);
            assert(detectors.yarn@[k - a - b] is Ok);
        } else {
            lemma_every_outcome_takes_part(detectors, k - a - b - c);
            assert(detectors.bun@[k - a - b - c] is Ok);
        }
    }
    lemma_detection_goes_by_the_first_error(outcomes, result, outcomes.len() as int);
}

/// A declaration as it is written goes by the URL or by the first number: Yarn from 2 on is Berry
/// and before that the first Yarn; pnpm changes at 7 and at 9; npm and Bun are always themselves.
/// With a URL, Yarn and pnpm are left to their detectors.
pub proof fn lemma_declaration_goes_by_the_first_number(
    package_json: PackageJson,
    field: Spanned,
    named: Seq<char>,
    version: Seq<char>,
    declaration: Declaration,
)
    requires
        package_json.package_manager == Some(field),
        grammar::declaration(field.value@) == Some((named, version)),
        is_as_written(package_json, declaration),
    ensures
        "http"@.is_prefix_of(version) ==> {
            &&& named == "npm"@ <==> declaration == Declaration::Known(PackageManager::Npm)
            &&& named == "bun"@ <==> declaration == Declaration::Known(PackageManager::Bun)
            &&& named == "yarn"@ <==> declaration == Declaration::Delegated(Detector::Yarn)
            &&& named == "pnpm"@ <==> declaration == Declaration::Delegated(Detector::Pnpm)
        },
        !"http"@.is_prefix_of(version) ==> {
            &&& declaration matches Declaration::Known(manager)
            &&& version::version_core(version) matches Some((numbers, _))
            &&& named == "npm"@ <==> manager is Npm
            &&& named == "bun"@ <==> manager is Bun
            &&& named == "yarn"@ && numbers.0 >= 2 <==> manager is Berry
            &&& named == "yarn"@ && numbers.0 <= 1 <==> manager is Yarn
            &&& named == "pnpm"@ && numbers.0 <= 6 <==> manager is Pnpm6
            &&& named == "pnpm"@ && 7 <= numbers.0 <= 8 <==> manager is Pnpm
            &&& named == "pnpm"@ && numbers.0 >= 9 <==> manager is Pnpm9
        },
{
    lemma_declared_names_differ();
    grammar::lemma_declaration_is_declared(field.value@);
}

/// What the parser makes of a version decides: a version that is refused declares nothing, and any
/// other declares the manager that goes by its major version.
pub proof fn lemma_declaration_goes_by_the_parsed_version(
    package_json: PackageJson,
    field: Spanned,
    named: Seq<char>,
    version: Seq<char>,
)
    requires
        package_json.package_manager == Some(field),
        grammar::declaration(field.value@) == Some((named, version)),
    ensures
        "http"@.is_prefix_of(version) ==> {
            &&& named == "npm"@ <==> declared(package_json) == Some(
                Declaration::Known(PackageManager::Npm),
            )
            &&& named == "bun"@ <==> declared(package_json) == Some(
                Declaration::Known(PackageManager::Bun),
            )
            &&& named == "yarn"@ <==> declared(package_json) == Some(
                Declaration::Delegated(Detector::Yarn),
            )
            &&& named == "pnpm"@ <==> declared(package_json) == Some(
                Declaration::Delegated(Detector::Pnpm),
            )
        },
        !"http"@.is_prefix_of(version) ==> match version::parsed_version(version) {
            Err(_) => declared(package_json) is None,
            Ok((major, _, _)) => {
                &&& declared(package_json) matches Some(Declaration::Known(manager))
                &&& named == "npm"@ <==> manager is Npm
                &&& named == "bun"@ <==> manager is Bun
                &&& named == "yarn"@ && major >= 2 <==> manager is Berry
                &&& named == "yarn"@ && major <= 1 <==> manager is Yarn
                &&& named == "pnpm"@ && major <= 6 <==> manager is Pnpm6
                &&& named == "pnpm"@ && 7 <= major <= 8 <==> manager is Pnpm
                &&& named == "pnpm"@ && major >= 9 <==> manager is Pnpm9
            },
        },
{
    lemma_declared_names_differ();
    grammar::lemma_declaration_is_declared(field.value@);
}

/// A field that is a name, `@` and three numbers, not too large, is read by the first number: for
/// Yarn, Berry from 2 on; for pnpm, the versions before 7, before 9 and from 9 on; for npm and Bun,
/// whatever the numbers are.
pub proof fn lemma_three_numbers_are_read(
    package_json: PackageJson,
    manager: Seq<char>,
    major: Seq<char>,
    minor: Seq<char>,
    patch: Seq<char>,
)
    requires
        manager == "npm"@ || manager == "bun"@ || manager == "yarn"@ || manager == "pnpm"@,
        major.len() > 0,
        minor.len() > 0,
        patch.len() > 0,
        forall|i: int| 0 <= i < major.len() ==> '0' <= #[trigger] major[i] <= '9',
        forall|i: int| 0 <= i < minor.len() ==> '0' <= #[trigger] minor[i] <= '9',
        forall|i: int| 0 <= i < patch.len() ==> '0' <= #[trigger] patch[i] <= '9',
        version::decimal_value(major) <= 900_719_925_474_099,
        version::decimal_value(minor) <= 900_719_925_474_099,
        version::decimal_value(patch) <= 900_719_925_474_099,
        major.len() + 1 + minor.len() + 1 + patch.len() <= 256,
        package_json.package_manager is Some,
        package_json.package_manager->0.value@ == manager + "@"@ + (major + seq!['.'] + minor
            + seq!['.'] + patch),
    ensures
        manager == "npm"@ ==> plainly_declared(package_json) == Some(PackageManager::Npm),
        manager == "bun"@ ==> plainly_declared(package_json) == Some(PackageManager::Bun),
        manager == "yarn"@ ==> {
            let number = version::decimal_value(major);
            &&& number >= 2 ==> plainly_declared(package_json) == Some(PackageManager::Berry)
            &&& number <= 1 ==> plainly_declared(package_json) == Some(PackageManager::Yarn)
        },
        manager == "pnpm"@ ==> {
            let number = version::decimal_value(major);
            &&& number <= 6 ==> plainly_declared(package_json) == Some(PackageManager::Pnpm6)
            &&& 7 <= number <= 8 ==> plainly_declared(package_json) == Some(PackageManager::Pnpm)
            &&& number >= 9 ==> plainly_declared(package_json) == Some(PackageManager::Pnpm9)
        },
{
    let version = major + seq!['.'] + minor + seq!['.'] + patch;
    lemma_declared_names_differ();
    version::lemma_three_numbers_are_a_plain_version(major, minor, patch);
    version::lemma_numbers_are_read_as_written(major, minor, patch, Seq::empty());
    assert(version + Seq::<char>::empty() =~= version);
    lemma_plain_declaration_is_read(package_json, manager, version);
}

/// A manager that is known comes out as it is; one that is left to a detector is the first thing
/// that the detector yields, an error too, and missing if it yields nothing.
pub proof fn lemma_delegates_answer_first(detectors: Detectors, manager: PackageManager)
    ensures
        resolved(Declaration::Known(manager), detectors) == Ok::<PackageManager, Error>(manager),
        detectors.yarn@.len() == 0 ==> resolved(
            Declaration::Delegated(Detector::Yarn),
            detectors,
        ) == Err::<PackageManager, Error>(Error::MissingPackageManager),
        detectors.yarn@.len() > 0 ==> resolved(Declaration::Delegated(Detector::Yarn), detectors)
            == match detectors.yarn@[0] {
            Ok(YarnVersion::Yarn1) => Ok::<_, Error>(PackageManager::Yarn),
            Ok(YarnVersion::Berry) => Ok(PackageManager::Berry),
            Err(error) => Err(error),
        },
        detectors.pnpm@.len() == 0 ==> resolved(
            Declaration::Delegated(Detector::Pnpm),
            detectors,
        ) == Err::<PackageManager, Error>(Error::MissingPackageManager),
        detectors.pnpm@.len() > 0 ==> resolved(Declaration::Delegated(Detector::Pnpm), detectors)
            == match detectors.pnpm@[0] {
            Ok(PnpmVersion::Pnpm6) => Ok::<_, Error>(PackageManager::Pnpm6),
            Ok(PnpmVersion::Pnpm7And8) => Ok(PackageManager::Pnpm),
            Ok(PnpmVersion::Pnpm9) => Ok(PackageManager::Pnpm9),
            Err(error) => Err(error),
        },
{
}

/// Why nothing is declared: a missing field is reported as missing, a field without a declaration
/// with the pattern, a version that is refused with what the parser says; the latter two show the
/// field where its place is known, and `package.json` where its file is not.
pub proof fn lemma_declaration_errors_show_the_field(package_json: PackageJson, error: Error)
    requires
        is_declaration_error(package_json, error),
    ensures
        package_json.package_manager is None ==> error == Error::MissingPackageManager,
        package_json.package_manager matches Some(field) ==> {
            let placed = field.span is Some && field.text is Some;
            if grammar::declaration(field.value@) is None {
                &&& error matches Error::InvalidPackageManager { pattern, span, text }
                &&& pattern@ == grammar::PACKAGE_MANAGER_PATTERN@
                &&& placed ==> span == field.span && text.source@ == field.text->0@
                &&& !placed ==> span is None && text.source@.len() == 0
                &&& field.path is Some ==> text.name@ == field.path->0@
                &&& field.path is None ==> text.name@ == "package.json"@
            } else {
                let version = (grammar::declaration(field.value@)->0).1;
                &&& error matches Error::InvalidVersion { explanation, span, text }
                &&& version::parsed_version(version) == Err::<(u64, u64, u64), Seq<char>>(
                    explanation@,
                )
                &&& placed ==> span == field.span && text.source@ == field.text->0@
                &&& !placed ==> span is None && text.source@.len() == 0
                &&& field.path is Some ==> text.name@ == field.path->0@
                &&& field.path is None ==> text.name@ == "package.json"@
            }
        },
{
}

/// Each detector searches for the managers of one binary.
pub proof fn lemma_families_are_told_apart(one: Detector, other: Detector)
    ensures
        one.family_binary() == other.family_binary() <==> one == other,
        Detector::Pnpm.family_binary() == "pnpm"@,
        Detector::Npm.family_binary() == "npm"@,
        Detector::Yarn.family_binary() == "yarn"@,
        Detector::Bun.family_binary() == "bun"@,
{
    lemma_declared_names_differ();
}

} // verus!
