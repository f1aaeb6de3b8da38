//! Lockfiles and what they are parsed as.

use vstd::prelude::*;

use crate::error::Error;
use crate::manager::PackageManager;
use crate::package_json::PackageJson;
use crate::paths;
use crate::paths::AbsoluteSystemPathBuf;

verus! {

/// The format of a lockfile. The one of Berry is read along with the resolutions of the root
/// `package.json`.
#[derive(Debug, PartialEq, Eq)]
pub enum LockfileFormat {
    Npm,
    Pnpm,
    Yarn1,
    Bun,
    Berry { resolutions: Vec<(String, String)> },
}

/// The contents of a lockfile with the format that they have to be parsed in.
#[derive(Debug, PartialEq, Eq)]
pub struct LockfileRequest<'a> {
    pub format: LockfileFormat,
    pub contents: &'a [u8],
}

/// The resolutions of a `package.json`, as pairs of texts; none if it has no such field.
pub open spec fn resolution_texts(package_json: PackageJson) -> Seq<(Seq<char>, Seq<char>)> {
    match package_json.resolutions {
        Some(resolutions) => pair_texts(resolutions@),
        None => Seq::empty(),
    }
}

/// The characters of each pair of strings in a list.
pub open spec fn pair_texts(pairs: Seq<(String, String)>) -> Seq<(Seq<char>, Seq<char>)> {
    pairs.map_values(|pair: (String, String)| (pair.0@, pair.1@))
}

/// Whether `format` is the one in which the lockfile of `manager` is parsed, next to
/// `package_json`.
pub open spec fn is_format_of(
    manager: PackageManager,
    package_json: PackageJson,
    format: LockfileFormat,
) -> bool {
    match manager {
        PackageManager::Npm => format is Npm,
        PackageManager::Pnpm | PackageManager::Pnpm6 | PackageManager::Pnpm9 => format is Pnpm,
        PackageManager::Yarn => format is Yarn1,
        PackageManager::Bun => format is Bun,
        PackageManager::Berry => {
            &&& format matches LockfileFormat::Berry { resolutions }
            &&& pair_texts(resolutions@) == resolution_texts(package_json)
        },
    }
}

/// Copies the resolutions of a `package.json`.
fn copied_resolutions(package_json: &PackageJson) -> (resolutions: Vec<(String, String)>)
    ensures
        pair_texts(resolutions@) == resolution_texts(*package_json),
        package_json.resolutions is None ==> resolutions@.len() == 0,
        package_json.resolutions matches Some(given) ==> {
            &&& resolutions@.len() == given@.len()
            &&& forall|i: int|
                0 <= i < given@.len() ==> {
                    &&& (#[trigger] resolutions@[i]).0@ == given@[i].0@
                    &&& resolutions@[i].1@ == given@[i].1@
                }
        },
{
    let mut copied: Vec<(String, String)> = Vec::new();
    if let Some(resolutions) = &package_json.resolutions {
        let mut i: usize = 0;
        while i < resolutions.len()
            invariant
                i <= resolutions@.len(),
                copied@.len() == i,
                forall|j: int|
                    0 <= j < i ==> {
                        &&& (#[trigger] copied@[j]).0@ == resolutions@[j].0@
                        &&& copied@[j].1@ == resolutions@[j].1@
                    },
            decreases resolutions@.len() - i,
        {
            copied.push((resolutions[i].0.clone(), resolutions[i].1.clone()));
            i += 1;
        }
        assert(pair_texts(copied@) =~= pair_texts(resolutions@));
    }
    assert(pair_texts(copied@) =~= resolution_texts(*package_json));
    copied
}

/// What comes of a lockfile, once it has been parsed; `parsed` holds what is wrong with it
/// otherwise.
pub fn loaded_lockfile<L>(parsed: Result<L, String>) -> (loaded: Result<L, Error>)
    ensures
        loaded == match parsed {
            Ok(lockfile) => Ok::<L, Error>(lockfile),
            Err(cause) => Err(Error::Lockfile(cause)),
        },
        loaded is Ok <==> parsed is Ok,
        loaded matches Ok(lockfile) ==> lockfile == parsed->Ok_0,
        loaded matches Err(error) ==> error == Error::Lockfile(parsed->Err_0),
{
    match parsed {
        Ok(lockfile) => Ok(lockfile),
        Err(cause) => Err(Error::Lockfile(cause)),
    }
}

impl PackageManager {
    /// Takes the contents of the manager's lockfile, which are `None` if the file cannot be read,
    /// and decides how they are parsed.
    pub fn read_lockfile<'a>(
        &self,
        root_path: &AbsoluteSystemPathBuf,
        root_package_json: &PackageJson,
        contents: Option<&'a [u8]>,
    ) -> (request: Result<LockfileRequest<'a>, Error>)
        ensures
            match contents {
                Some(bytes) => {
                    &&& request matches Ok(parse)
                    &&& parse.contents@ == bytes@
                    &&& is_format_of(*self, *root_package_json, parse.format)
                },
                None => {
                    &&& request matches Err(Error::LockfileMissing(path))
                    &&& path@ == paths::path_in(
                        root_path@,
                        root_path.separator,
                        self.lockfile_text(),
                    )
                    &&& path.separator == root_path.separator
                },
            },
            request is Ok <==> contents is Some,
            request matches Ok(parse) ==> parse.contents@ == contents->0@,
            request matches Err(error) ==> error is LockfileMissing,
            request matches Ok(parse) ==> {
                &&& parse.format is Npm <==> self is Npm
                &&& parse.format is Pnpm <==> self is Pnpm || self is Pnpm6 || self is Pnpm9
                &&& parse.format is Yarn1 <==> self is Yarn
                &&& parse.format is Bun <==> self is Bun
                &&& parse.format is Berry <==> self is Berry
            },
            request matches Ok(parse) ==> (parse.format matches LockfileFormat::Berry {
                resolutions,
            } ==> {
                &&& root_package_json.resolutions is None ==> resolutions@.len() == 0
                &&& root_package_json.resolutions matches Some(given) ==> {
                    &&& resolutions@.len() == given@.len()
                    &&& forall|i: int|
                        0 <= i < given@.len() ==> {
                            &&& (#[trigger] resolutions@[i]).0@ == given@[i].0@
                            &&& resolutions@[i].1@ == given@[i].1@
                        }
                }
            }),
    {
        match contents {
            Some(bytes) => Ok(self.parse_lockfile(root_package_json, bytes)),
            None => Err(Error::LockfileMissing(self.lockfile_path(root_path))),
        }
    }

    /// Decides how the contents of the manager's lockfile are parsed.
    pub fn parse_lockfile<'a>(
        &self,
        root_package_json: &PackageJson,
        contents: &'a [u8],
    ) -> (request: LockfileRequest<'a>)
        ensures
            request.contents@ == contents@,
            is_format_of(*self, *root_package_json, request.format),
            request.format is Npm <==> self is Npm,
            request.format is Pnpm <==> self is Pnpm || self is Pnpm6 || self is Pnpm9,
            request.format is Yarn1 <==> self is Yarn,
            request.format is Bun <==> self is Bun,
            request.format is Berry <==> self is Berry,
            request.format matches LockfileFormat::Berry { resolutions } ==> {
                &&& root_package_json.resolutions is None ==> resolutions@.len() == 0
                &&& root_package_json.resolutions matches Some(given) ==> {
                    &&& resolutions@.len() == given@.len()
                    &&& forall|i: int|
                        0 <= i < given@.len() ==> {
                            &&& (#[trigger] resolutions@[i]).0@ == given@[i].0@
                            &&& resolutions@[i].1@ == given@[i].1@
                        }
                }
            },
    {
        let format = match self {
            PackageManager::Npm => LockfileFormat::Npm,
            PackageManager::Pnpm | PackageManager::Pnpm6 | PackageManager::Pnpm9 => {
                LockfileFormat::Pnpm
            },
            PackageManager::Yarn => LockfileFormat::Yarn1,
            PackageManager::Bun => LockfileFormat::Bun,
            PackageManager::Berry => LockfileFormat::Berry {
                resolutions: copied_resolutions(root_package_json),
            },
        };
        LockfileRequest { format, contents }
    }
}

/// The lockfile of Berry is parsed with the resolutions of `package.json`, all of them and no
/// others: as many as there are, each with its key and its value, in their order.
pub proof fn lemma_berry_gets_every_resolution(
    package_json: PackageJson,
    format: LockfileFormat,
    resolutions: Vec<(String, String)>,
)
    requires
        is_format_of(PackageManager::Berry, package_json, format),
        format == (LockfileFormat::Berry { resolutions }),
    ensures
        package_json.resolutions is None ==> resolutions@.len() == 0,
        package_json.resolutions matches Some(given) ==> {
            &&& resolutions@.len() == given@.len()
            &&& forall|i: int|
                0 <= i < given@.len() ==> {
                    &&& (#[trigger] resolutions@[i]).0@ == given@[i].0@
                    &&& resolutions@[i].1@ == given@[i].1@
                }
        },
{
    if let Some(given) = package_json.resolutions {
        assert(pair_texts(resolutions@) == pair_texts(given@));
        assert(pair_texts(resolutions@).len() == resolutions@.len());
        assert(pair_texts(given@).len() == given@.len());
        assert forall|i: int| 0 <= i < given@.len() implies {
            &&& (#[trigger] resolutions@[i]).0@ == given@[i].0@
            &&& resolutions@[i].1@ == given@[i].1@
        } by {
            assert(pair_texts(resolutions@)[i] == (resolutions@[i].0@, resolutions@[i].1@));
            assert(pair_texts(given@)[i] == (given@[i].0@, given@[i].1@));
        }
    } else {
        assert(pair_texts(resolutions@).len() == 0);
    }
}

/// Two managers have their lockfiles parsed in the same format if and only if they share a
/// lockfile, except that Yarn and Berry, which do share one, are told apart.
pub proof fn lemma_format_goes_by_lockfile(
    manager: PackageManager,
    package_json: PackageJson,
    format: LockfileFormat,
)
    requires
        is_format_of(manager, package_json, format),
    ensures
        format is Npm <==> manager.lockfile_text() == "package-lock.json"@,
        format is Pnpm <==> manager.lockfile_text() == "pnpm-lock.yaml"@,
        format is Bun <==> manager.lockfile_text() == "bun.lock"@,
        format is Yarn1 || format is Berry <==> manager.lockfile_text() == "yarn.lock"@,
        format is Berry <==> manager is Berry,
{
    crate::manager::lemma_what_managers_are_called(manager);
}

} // verus!
