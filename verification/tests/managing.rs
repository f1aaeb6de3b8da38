use std::collections::HashSet;

use package_manager::pnpm::PnpmVersion;
use package_manager::{
    loaded_lockfile, AbsoluteSystemPathBuf, Error, LinkSetting, LinkSettings, LockfileFormat, LockfileRequest,
    MissingWorkspaceError, NamedSource, NoPackageManager, PackageJson, PackageManager, PatchFormat,
    WorkspaceGlobs, WorkspaceSources, Workspaces,
};

fn strings(list: &[&str]) -> Vec<String> {
    list.iter().map(|s| s.to_string()).collect()
}

fn root() -> AbsoluteSystemPathBuf {
    AbsoluteSystemPathBuf::new("/a/b/c".to_string(), '/')
}

fn fixtures() -> WorkspaceSources {
    WorkspaceSources {
        pnpm_workspace: Some(strings(&["apps/*", "packages/*", "!packages/skip"])),
        package_json: Ok(Some(Workspaces::TopLevel(strings(&["apps/*", "packages/*"])))),
    }
}

fn workspaces(json: &str) -> Workspaces {
    let value: serde_json::Value = serde_json::from_str(json).unwrap();
    let field = &value["workspaces"];
    let globs = |list: &serde_json::Value| -> Vec<String> {
        list.as_array().unwrap().iter().map(|glob| glob.as_str().unwrap().to_string()).collect()
    };
    if field.is_array() {
        Workspaces::TopLevel(globs(field))
    } else {
        Workspaces::Nested { packages: globs(&field["packages"]) }
    }
}

#[test]
fn test_nested_workspace_globs() {
    let top_level = workspaces("{ \"workspaces\": [\"packages/**\"]}");
    assert_eq!(top_level.as_ref(), vec!["packages/**"]);
    let nested = workspaces("{ \"workspaces\": {\"packages\": [\"packages/**\"]}}");
    assert_eq!(nested.as_ref(), vec!["packages/**"]);
    assert_eq!(Vec::from(top_level), Vec::from(nested));
}

#[test]
fn test_get_workspace_ignores() {
    for mgr in &[
        PackageManager::Npm,
        PackageManager::Yarn,
        PackageManager::Berry,
        PackageManager::Pnpm,
        PackageManager::Pnpm6,
    ] {
        let globs = mgr.get_workspace_globs(fixtures()).unwrap();
        let ignores: HashSet<String> = HashSet::from_iter(globs.raw_exclusions);
        let expected: &[&str] = match mgr {
            PackageManager::Npm => &["**/node_modules/**"],
            PackageManager::Berry => &["**/node_modules", "**/.git", "**/.yarn"],
            PackageManager::Bun => &["**/node_modules", "**/.git"],
            PackageManager::Yarn => &["apps/*/node_modules/**", "packages/*/node_modules/**"],
            PackageManager::Pnpm | PackageManager::Pnpm6 | PackageManager::Pnpm9 => &[
                "**/node_modules/**",
                "**/bower_components/**",
                "packages/skip",
            ],
        };
        let expected: HashSet<String> = HashSet::from_iter(expected.iter().map(|s| s.to_string()));
        assert_eq!(ignores, expected);
    }
}

#[test]
fn test_link_workspace_packages_enabled_by_default() {
    for pm in [PackageManager::Npm, PackageManager::Yarn, PackageManager::Bun] {
        let actual = pm.link_workspace_packages(&LinkSettings { berry: false, pnpm: false });
        assert!(
            actual,
            "all package managers without a special implementation should use workspace packages"
        );
    }
}

#[test]
fn settings_decide_about_links_of_berry_and_pnpm() {
    let berry = LinkSettings { berry: true, pnpm: false };
    let pnpm = LinkSettings { berry: false, pnpm: true };
    assert!(PackageManager::Berry.link_workspace_packages(&berry));
    assert!(!PackageManager::Berry.link_workspace_packages(&pnpm));
    for manager in [PackageManager::Pnpm6, PackageManager::Pnpm, PackageManager::Pnpm9] {
        assert!(!manager.link_workspace_packages(&berry));
        assert!(manager.link_workspace_packages(&pnpm));
    }
    assert_eq!(PackageManager::Berry.link_setting(), LinkSetting::Berry);
    assert_eq!(PackageManager::Pnpm6.link_setting(), LinkSetting::Pnpm(PnpmVersion::Pnpm6));
    assert_eq!(PackageManager::Pnpm.link_setting(), LinkSetting::Pnpm(PnpmVersion::Pnpm7And8));
    assert_eq!(PackageManager::Pnpm9.link_setting(), LinkSetting::Pnpm(PnpmVersion::Pnpm9));
    assert_eq!(PackageManager::Bun.link_setting(), LinkSetting::Always);
}

#[test]
fn globs_are_partitioned_in_order() {
    let sources = WorkspaceSources {
        pnpm_workspace: None,
        package_json: Ok(Some(Workspaces::Nested {
            packages: strings(&["!x", "a", "!!y", "", "b!", "!"]),
        })),
    };
    let globs = PackageManager::Yarn.get_workspace_globs(sources).unwrap();
    assert_eq!(globs.raw_inclusions, strings(&["a", "", "b!"]));
    assert_eq!(
        globs.raw_exclusions,
        strings(&["x", "!y", "", "a/node_modules/**", "/node_modules/**", "b!/node_modules/**"])
    );
}

#[test]
fn defaults_follow_what_is_configured() {
    let globs = PackageManager::Pnpm9.get_workspace_globs(fixtures()).unwrap();
    assert_eq!(globs.raw_inclusions, strings(&["apps/*", "packages/*"]));
    assert_eq!(
        globs.raw_exclusions,
        strings(&["packages/skip", "**/node_modules/**", "**/bower_components/**"])
    );
    assert_eq!(
        PackageManager::Bun.get_configured_workspace_globs(fixtures()),
        Ok((strings(&["apps/*", "packages/*"]), vec![]))
    );
}

fn missing(manager: PackageManager) -> Result<WorkspaceGlobs, Error> {
    Err(Error::Workspace(MissingWorkspaceError { package_manager: manager }))
}

#[test]
fn a_missing_workspace_is_an_error() {
    for manager in PackageManager::supported_managers() {
        let nothing = WorkspaceSources { pnpm_workspace: None, package_json: Ok(None) };
        assert_eq!(manager.get_workspace_globs(nothing), missing(*manager));
    }
    let empty = || WorkspaceSources {
        pnpm_workspace: Some(vec![]),
        package_json: Ok(Some(Workspaces::TopLevel(vec![]))),
    };
    assert_eq!(PackageManager::Npm.get_workspace_globs(empty()), missing(PackageManager::Npm));
    assert_eq!(
        PackageManager::Pnpm.get_configured_workspace_globs(empty()),
        Ok((vec![], vec![]))
    );
    let unreadable = || WorkspaceSources {
        pnpm_workspace: None,
        package_json: Err(Error::Io("not found".to_string())),
    };
    assert_eq!(
        PackageManager::Bun.get_workspace_globs(unreadable()),
        Err(Error::Io("not found".to_string()))
    );
    assert_eq!(PackageManager::Pnpm.get_workspace_globs(unreadable()), missing(PackageManager::Pnpm));
}

#[test]
fn globs_that_cannot_be_built_are_an_error() {
    let globs = || WorkspaceGlobs::new(strings(&["a"]), strings(&["b"]));
    assert_eq!(globs().checked(Ok(())), Ok(globs()));
    assert_eq!(
        globs().checked(Err("bad".to_string())),
        Err(Error::WorkspaceGlob("bad".to_string()))
    );
}

#[test]
fn every_manager_is_listed_once() {
    let managers = PackageManager::supported_managers();
    assert_eq!(managers.len(), 7);
    let names: HashSet<&str> = managers.iter().map(|manager| manager.name()).collect();
    assert_eq!(
        names,
        HashSet::from(["npm", "pnpm9", "pnpm", "pnpm6", "yarn", "berry", "bun"])
    );
    assert_eq!(managers[0], PackageManager::Npm);
    assert_eq!(managers[6], PackageManager::Bun);
}

#[test]
fn commands_and_lockfiles() {
    let table = [
        (PackageManager::Npm, "npm", "package-lock.json", None),
        (PackageManager::Pnpm9, "pnpm", "pnpm-lock.yaml", Some("pnpm-workspace.yaml")),
        (PackageManager::Pnpm, "pnpm", "pnpm-lock.yaml", Some("pnpm-workspace.yaml")),
        (PackageManager::Pnpm6, "pnpm", "pnpm-lock.yaml", Some("pnpm-workspace.yaml")),
        (PackageManager::Yarn, "yarn", "yarn.lock", None),
        (PackageManager::Berry, "yarn", "yarn.lock", None),
        (PackageManager::Bun, "bun", "bun.lock", None),
    ];
    for (manager, command, lockfile, configuration) in table {
        assert_eq!(manager.command(), command);
        assert_eq!(manager.lockfile_name(), lockfile);
        assert_eq!(manager.workspace_configuration_path(), configuration);
        assert_eq!(manager.lockfile_path(&root()).path, format!("/a/b/c/{}", lockfile));
        assert_eq!(
            manager.workspace_glob_source(&root()).path,
            format!("/a/b/c/{}", configuration.unwrap_or("package.json"))
        );
    }
}

#[test]
fn components_are_joined_with_one_separator() {
    let join = |path: &str, separator: char| {
        AbsoluteSystemPathBuf::new(path.to_string(), separator).join_component("x").path
    };
    assert_eq!(join("/", '/'), "/x");
    assert_eq!(join("/a", '/'), "/a/x");
    assert_eq!(join("C:\\a", '\\'), "C:\\a\\x");
    assert_eq!(join("C:\\", '\\'), "C:\\x");
}

#[test]
fn separators_stand_where_they_are_needed() {
    let without = strings(&["a", "---", "-"]);
    let with = strings(&["a", "--", "b"]);
    for manager in [PackageManager::Yarn, PackageManager::Bun] {
        assert_eq!(manager.arg_separator(&without), None);
        assert_eq!(manager.arg_separator(&with), Some("--"));
        assert_eq!(manager.arg_separator(&[]), None);
    }
    for manager in [PackageManager::Npm, PackageManager::Pnpm6] {
        assert_eq!(manager.arg_separator(&without), Some("--"));
        assert_eq!(manager.arg_separator(&with), Some("--"));
    }
    for manager in [PackageManager::Pnpm, PackageManager::Pnpm9, PackageManager::Berry] {
        assert_eq!(manager.arg_separator(&without), None);
        assert_eq!(manager.arg_separator(&with), None);
    }
}

#[test]
fn swallowing_one_separator_leaves_the_users_arguments() {
    for user_args in [strings(&["--", "a"]), strings(&["a", "--"]), strings(&["a"]), vec![]] {
        let mut given: Vec<String> = Vec::new();
        if let Some(separator) = PackageManager::Yarn.arg_separator(&user_args) {
            given.push(separator.to_string());
        }
        given.extend(user_args.iter().cloned());
        if let Some(first) = given.iter().position(|arg| arg == "--") {
            given.remove(first);
        }
        assert_eq!(given, user_args);
    }
}

#[test]
fn lockfiles_are_parsed_in_their_format() {
    let package_json = PackageJson {
        package_manager: None,
        resolutions: Some(vec![
            ("b".to_string(), "patch:b".to_string()),
            ("a".to_string(), "1.0.0".to_string()),
        ]),
    };
    let format = |manager: PackageManager, package_json: &PackageJson| {
        manager.parse_lockfile(package_json, b"contents").format
    };
    assert_eq!(format(PackageManager::Npm, &package_json), LockfileFormat::Npm);
    assert_eq!(format(PackageManager::Pnpm6, &package_json), LockfileFormat::Pnpm);
    assert_eq!(format(PackageManager::Pnpm, &package_json), LockfileFormat::Pnpm);
    assert_eq!(format(PackageManager::Pnpm9, &package_json), LockfileFormat::Pnpm);
    assert_eq!(format(PackageManager::Yarn, &package_json), LockfileFormat::Yarn1);
    assert_eq!(format(PackageManager::Bun, &package_json), LockfileFormat::Bun);
    assert_eq!(
        format(PackageManager::Berry, &package_json),
        LockfileFormat::Berry {
            resolutions: vec![
                ("b".to_string(), "patch:b".to_string()),
                ("a".to_string(), "1.0.0".to_string()),
            ],
        }
    );
    assert_eq!(
        format(PackageManager::Berry, &PackageJson::default()),
        LockfileFormat::Berry { resolutions: vec![] }
    );
}

#[test]
fn a_missing_lockfile_is_an_error() {
    let package_json = PackageJson::default();
    assert_eq!(
        PackageManager::Bun.read_lockfile(&root(), &package_json, None),
        Err(Error::LockfileMissing(PackageManager::Bun.lockfile_path(&root())))
    );
    assert_eq!(
        PackageManager::Bun.read_lockfile(&root(), &package_json, Some(b"{}")),
        Ok(LockfileRequest { format: LockfileFormat::Bun, contents: b"{}" })
    );
}

#[test]
fn patches_are_pruned_in_the_format_of_the_manager() {
    assert!(PackageManager::Berry.has_patches());
    assert_eq!(PackageManager::Berry.prune_patched_packages(), PatchFormat::Yarn);
    for manager in [PackageManager::Pnpm6, PackageManager::Pnpm, PackageManager::Pnpm9] {
        assert!(manager.has_patches());
        assert_eq!(manager.prune_patched_packages(), PatchFormat::Pnpm);
    }
    for manager in [PackageManager::Yarn, PackageManager::Npm, PackageManager::Bun] {
        assert!(!manager.has_patches());
    }
}

#[test]
fn messages_of_a_missing_workspace() {
    let message = |manager: PackageManager| MissingWorkspaceError::from(manager).message();
    assert_eq!(
        message(PackageManager::Pnpm),
        "pnpm-workspace.yaml: no packages found. Turborepo requires pnpm workspaces and \
         thus packages to be defined in the root pnpm-workspace.yaml"
    );
    assert_eq!(message(PackageManager::Pnpm6), message(PackageManager::Pnpm));
    assert_eq!(message(PackageManager::Pnpm9), message(PackageManager::Pnpm));
    assert_eq!(
        message(PackageManager::Yarn),
        "package.json: no workspaces found. Turborepo requires yarn workspaces to be \
         defined in the root package.json"
    );
    assert_eq!(message(PackageManager::Berry), message(PackageManager::Yarn));
    assert_eq!(
        message(PackageManager::Npm),
        "package.json: no workspaces found. Turborepo requires npm workspaces to be \
         defined in the root package.json"
    );
    assert_eq!(
        message(PackageManager::Bun),
        "package.json: no workspaces found. Turborepo requires bun workspaces to be \
         defined in the root package.json"
    );
}

#[test]
fn messages_of_errors() {
    let cause = || "cause".to_string();
    let source = || NamedSource { name: "package.json".to_string(), source: String::new() };
    let table = [
        (Error::Io(cause()), "I/O error: cause"),
        (Error::ParsingYaml(cause()), "YAML parsing error: cause"),
        (Error::ParsingJson(cause()), "JSON parsing error: cause"),
        (Error::Wax(cause()), "Globbing error: cause"),
        (Error::PackageJson(cause()), "cause"),
        (Error::Other(cause()), "cause"),
        (
            Error::MultiplePackageManagers { managers: strings(&["npm", "yarn", "bun"]) },
            "Multiple package managers in your repository: npm, yarn, bun. Please use one package \
             manager.",
        ),
        (
            Error::MultiplePackageManagers { managers: vec![] },
            "Multiple package managers in your repository: . Please use one package manager.",
        ),
        (
            Error::InvalidVersion { explanation: cause(), span: None, text: source() },
            "Invalid semantic version: cause",
        ),
        (Error::Which(cause(), "yarn".to_string()), "cause: yarn"),
        (Error::Utf8Error(cause()), "Invalid utf8: cause"),
        (Error::Path(cause()), "cause"),
        (
            Error::InvalidPackageManager { pattern: "p".to_string(), span: None, text: source() },
            "Could not parse the `packageManager` field in package.json, expected to match regular \
             expression `p`.",
        ),
        (Error::WorkspaceGlob(cause()), "cause"),
        (Error::Lockfile(cause()), "cause"),
        (Error::LockfileMissing(root()), "Lockfile not found at /a/b/c"),
        (Error::WorkspaceDiscovery(cause()), "Discovering workspace: cause"),
        (Error::MissingPackageManager, "Missing `packageManager` field in package.json"),
        (Error::Yarnrc(cause()), "cause"),
        (
            Error::BunBinaryLockfile,
            "Only found bun.lockb, please run `bun install --save-text-lockfile`",
        ),
        (
            Error::from(NoPackageManager),
            "We did not find a package manager specified in your root package.json. \
             Please set the \"packageManager\" property in your root package.json \
             (https://nodejs.org/api/packages.html#packagemanager) \
             or run `npx @turbo/codemod add-package-manager` in the root of your monorepo.",
        ),
    ];
    for (error, message) in table {
        assert_eq!(error.message(), message);
    }
    let missing = MissingWorkspaceError::from(PackageManager::Npm);
    assert_eq!(Error::from(missing).message(), missing.message());
}

#[test]
fn a_lockfile_that_cannot_be_parsed_is_an_error() {
    assert_eq!(loaded_lockfile(Ok(3)), Ok(3));
    assert_eq!(
        loaded_lockfile::<u8>(Err("bad".to_string())),
        Err(Error::Lockfile("bad".to_string()))
    );
}
