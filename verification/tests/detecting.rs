use package_manager::pnpm::detect_pnpm6_or_pnpm;
use package_manager::yarn::detect_berry_or_yarn;
use package_manager::{
    BunVersion, Declaration, Detector, Detectors, Error, NamedSource, NoPackageManager, NpmVersion,
    PackageJson, PackageManager, PnpmVersion, Release, SourceSpan, Spanned, Version, YarnVersion,
};

const PATTERN: &str =
    r"(?P<manager>bun|npm|pnpm|yarn)@(?P<version>\d+\.\d+\.\d+(-.+)?|https?://.+)";

struct TestCase {
    name: String,
    package_manager: Spanned,
    expected_manager: String,
    expected_version: String,
    expected_error: bool,
}

fn declaring(field: &str) -> PackageJson {
    PackageJson {
        package_manager: Some(Spanned::new(field.to_string())),
        ..Default::default()
    }
}

fn parsed(field: &str) -> Option<(String, String)> {
    let spanned = Spanned::new(field.to_string());
    match PackageManager::parse_package_manager_string(&spanned) {
        Ok((manager, version)) => Some((manager.to_string(), version.to_string())),
        Err(_) => None,
    }
}

fn found(manager: &str, version: &str) -> Option<(String, String)> {
    Some((manager.to_string(), version.to_string()))
}

#[test]
fn test_parse_package_manager_string() {
    let tests = vec![
        TestCase {
            name: "errors with a tag version".to_owned(),
            package_manager: Spanned::new("npm@latest".to_owned()),
            expected_manager: "".to_owned(),
            expected_version: "".to_owned(),
            expected_error: true,
        },
        TestCase {
            name: "errors with no version".to_owned(),
            package_manager: Spanned::new("npm".to_owned()),
            expected_manager: "".to_owned(),
            expected_version: "".to_owned(),
            expected_error: true,
        },
        TestCase {
            name: "requires fully-qualified semver versions (one digit)".to_owned(),
            package_manager: Spanned::new("npm@1".to_owned()),
            expected_manager: "".to_owned(),
            expected_version: "".to_owned(),
            expected_error: true,
        },
        TestCase {
            name: "requires fully-qualified semver versions (two digits)".to_owned(),
            package_manager: Spanned::new("npm@1.2".to_owned()),
            expected_manager: "".to_owned(),
            expected_version: "".to_owned(),
            expected_error: true,
        },
        TestCase {
            name: "supports custom labels".to_owned(),
            package_manager: Spanned::new("npm@1.2.3-alpha.1".to_owned()),
            expected_manager: "npm".to_owned(),
            expected_version: "1.2.3-alpha.1".to_owned(),
            expected_error: false,
        },
        TestCase {
            name: "only supports specified package managers".to_owned(),
            package_manager: Spanned::new("pip@1.2.3".to_owned()),
            expected_manager: "".to_owned(),
            expected_version: "".to_owned(),
            expected_error: true,
        },
        TestCase {
            name: "supports npm".to_owned(),
            package_manager: Spanned::new("npm@0.0.1".to_owned()),
            expected_manager: "npm".to_owned(),
            expected_version: "0.0.1".to_owned(),
            expected_error: false,
        },
        TestCase {
            name: "supports pnpm".to_owned(),
            package_manager: Spanned::new("pnpm@0.0.1".to_owned()),
            expected_manager: "pnpm".to_owned(),
            expected_version: "0.0.1".to_owned(),
            expected_error: false,
        },
        TestCase {
            name: "supports yarn".to_owned(),
            package_manager: Spanned::new("yarn@111.0.1".to_owned()),
            expected_manager: "yarn".to_owned(),
            expected_version: "111.0.1".to_owned(),
            expected_error: false,
        },
        TestCase {
            name: "supports bun".to_owned(),
            package_manager: Spanned::new("bun@1.0.1".to_owned()),
            expected_manager: "bun".to_owned(),
            expected_version: "1.0.1".to_owned(),
            expected_error: false,
        },
        TestCase {
            name: "supports custom URL".to_owned(),
            package_manager: Spanned::new("npm@https://some-npm-fork".to_owned()),
            expected_manager: "npm".to_owned(),
            expected_version: "https://some-npm-fork".to_owned(),
            expected_error: false,
        },
    ];

    for case in tests {
        let result = PackageManager::parse_package_manager_string(&case.package_manager);
        let Ok((received_manager, received_version)) = result else {
            assert!(case.expected_error, "{}: received error", case.name);
            continue;
        };

        assert!(!case.expected_error, "{}: received no error", case.name);
        assert_eq!(received_manager, case.expected_manager);
        assert_eq!(received_version, case.expected_version);
    }
}

#[test]
fn test_read_package_manager() -> Result<(), Error> {
    let mut package_json = PackageJson {
        package_manager: Some(Spanned::new("npm@8.19.4".to_string())),
        ..Default::default()
    };
    let package_manager =
        PackageManager::read_package_manager(Detectors::none(), &package_json)?;
    assert_eq!(package_manager, PackageManager::Npm);

    package_json.package_manager = Some(Spanned::new("yarn@2.0.0".to_string()));
    let package_manager =
        PackageManager::read_package_manager(Detectors::none(), &package_json)?;
    assert_eq!(package_manager, PackageManager::Berry);

    package_json.package_manager = Some(Spanned::new("yarn@1.9.0".to_string()));
    let package_manager =
        PackageManager::read_package_manager(Detectors::none(), &package_json)?;
    assert_eq!(package_manager, PackageManager::Yarn);

    package_json.package_manager = Some(Spanned::new("pnpm@6.0.0".to_string()));
    let package_manager =
        PackageManager::read_package_manager(Detectors::none(), &package_json)?;
    assert_eq!(package_manager, PackageManager::Pnpm6);

    package_json.package_manager = Some(Spanned::new("pnpm@7.2.0".to_string()));
    let package_manager =
        PackageManager::read_package_manager(Detectors::none(), &package_json)?;
    assert_eq!(package_manager, PackageManager::Pnpm);

    package_json.package_manager = Some(Spanned::new("bun@1.0.1".to_string()));
    let package_manager =
        PackageManager::read_package_manager(Detectors::none(), &package_json)?;
    assert_eq!(package_manager, PackageManager::Bun);

    Ok(())
}

#[test]
fn the_leftmost_declaration_is_found() {
    assert_eq!(parsed("use npm@1.2 or yarn@1.2.3"), found("yarn", "1.2.3"));
    assert_eq!(parsed("yarn@1.2.3 npm@4.5.6"), found("yarn", "1.2.3"));
    assert_eq!(parsed("xpnpm@1.2.3"), found("pnpm", "1.2.3"));
    assert_eq!(parsed("npm@npm@1.2.3"), found("npm", "1.2.3"));
    assert_eq!(parsed("ünpm@1.2.3"), found("npm", "1.2.3"));
    assert_eq!(parsed("NPM@1.2.3"), None);
    assert_eq!(parsed("npm 1.2.3"), None);
    assert_eq!(parsed(""), None);
}

#[test]
fn a_version_ends_where_its_numbers_end() {
    assert_eq!(parsed("npm@1.2.3abc"), found("npm", "1.2.3"));
    assert_eq!(parsed("npm@1.2.3.4"), found("npm", "1.2.3"));
    assert_eq!(parsed("npm@1.2.3+sha256.abc"), found("npm", "1.2.3"));
    assert_eq!(parsed("npm@1..3"), None);
    assert_eq!(parsed("npm@1.2."), None);
    assert_eq!(parsed("npm@v1.2.3"), None);
}

#[test]
fn a_label_reaches_to_the_end_of_the_line() {
    assert_eq!(parsed("npm@1.2.3-a b@c"), found("npm", "1.2.3-a b@c"));
    assert_eq!(parsed("npm@1.2.3-é"), found("npm", "1.2.3-é"));
    assert_eq!(parsed("npm@1.2.3-rc\nmore"), found("npm", "1.2.3-rc"));
    assert_eq!(parsed("npm@1.2.3-"), found("npm", "1.2.3"));
    assert_eq!(parsed("npm@1.2.3-\nmore"), found("npm", "1.2.3"));
}

#[test]
fn a_url_reaches_to_the_end_of_the_line() {
    assert_eq!(parsed("yarn@http://a b\nc"), found("yarn", "http://a b"));
    assert_eq!(parsed("bun@https://x"), found("bun", "https://x"));
    assert_eq!(parsed("npm@http:///"), found("npm", "http:///"));
    assert_eq!(parsed("npm@https://"), None);
    assert_eq!(parsed("npm@http://\nx"), None);
    assert_eq!(parsed("npm@httpss://x"), None);
    assert_eq!(parsed("npm@ftp://x"), None);
}

#[test]
fn digits_of_every_script_are_found() {
    // the first and the last digit of several scripts, and their neighbours
    assert_eq!(parsed("npm@٠.٩.1"), found("npm", "٠.٩.1"));
    assert_eq!(parsed("npm@𝟎.𝟿.𑛣"), found("npm", "𝟎.𝟿.𑛣"));
    assert_eq!(parsed("npm@1.2.３"), found("npm", "1.2.３"));
    assert_eq!(parsed("npm@🯰.🯹.0"), found("npm", "🯰.🯹.0"));
    assert_eq!(parsed("npm@².2.3"), None);
    assert_eq!(parsed("npm@\u{65f}.2.3"), None);
    assert_eq!(parsed("npm@\u{66a}.2.3"), None);
    assert_eq!(parsed("npm@Ⅷ.2.3"), None);
}

#[test]
fn every_digit_outside_of_ascii_is_in_the_table() {
    let zeros: Vec<u32> = vec![
        0x30, 0x660, 0x6f0, 0x7c0, 0x966, 0x9e6, 0xa66, 0xae6, 0xb66, 0xbe6, 0xc66, 0xce6, 0xd66,
        0xde6, 0xe50, 0xed0, 0xf20, 0x1040, 0x1090, 0x17e0, 0x1810, 0x1946, 0x19d0, 0x1a80, 0x1a90,
        0x1b50, 0x1bb0, 0x1c40, 0x1c50, 0xa620, 0xa8d0, 0xa900, 0xa9d0, 0xa9f0, 0xaa50, 0xabf0,
        0xff10, 0x104a0, 0x10d30, 0x10d40, 0x11066, 0x110f0, 0x11136, 0x111d0, 0x112f0, 0x11450,
        0x114d0, 0x11650, 0x116c0, 0x11730, 0x118e0, 0x11950, 0x11bf0, 0x11c50, 0x11d50, 0x11da0,
        0x11f50, 0x16130, 0x16a60, 0x16ac0, 0x16b50, 0x16d70, 0x1ccf0, 0x1e140, 0x1e2f0, 0x1e4f0,
        0x1e5f1, 0x1e950, 0x1fbf0,
    ];
    let digits = regex::Regex::new(r"^\d$").unwrap();
    let mut code: u32 = 0;
    while code <= 0x10ffff {
        if let Some(c) = char::from_u32(code) {
            let listed = zeros.iter().any(|zero| *zero <= code && code <= *zero + 9)
                || (0x116d0 <= code && code <= 0x116e3)
                || (0x1d7ce <= code && code <= 0x1d7ff);
            assert_eq!(digits.is_match(&c.to_string()), listed, "{:x}", code);
        }
        code += 1;
    }
}

#[test]
fn every_name_is_read_back_with_every_version() {
    for manager in ["bun", "npm", "pnpm", "yarn"] {
        for version in ["0.0.0", "10.20.30", "1.2.3-rc.1", "http://x", "https://a.b/c.tgz"] {
            let field = format!("{}@{}", manager, version);
            assert_eq!(parsed(&field), found(manager, version));
        }
    }
}

#[test]
fn an_invalid_field_is_shown() {
    let field = Spanned {
        value: "npm".to_string(),
        span: Some(SourceSpan { offset: 19, length: 5 }),
        path: Some("a/package.json".to_string()),
        text: Some("{\"packageManager\": \"npm\"}".to_string()),
    };
    assert_eq!(
        PackageManager::parse_package_manager_string(&field),
        Err(Error::InvalidPackageManager {
            pattern: PATTERN.to_string(),
            span: Some(SourceSpan { offset: 19, length: 5 }),
            text: NamedSource {
                name: "a/package.json".to_string(),
                source: "{\"packageManager\": \"npm\"}".to_string(),
            },
        })
    );
    assert_eq!(
        PackageManager::parse_package_manager_string(&Spanned::new("npm".to_string())),
        Err(Error::InvalidPackageManager {
            pattern: PATTERN.to_string(),
            span: None,
            text: NamedSource { name: "package.json".to_string(), source: String::new() },
        })
    );
}

#[test]
fn a_place_without_its_text_is_not_shown() {
    let field = Spanned {
        value: "npm".to_string(),
        span: Some(SourceSpan { offset: 1, length: 2 }),
        path: None,
        text: None,
    };
    assert_eq!(
        field.span_and_text("default"),
        (None, NamedSource { name: "default".to_string(), source: String::new() })
    );
}

fn invalid_version(explanation: &str) -> Result<PackageManager, Error> {
    Err(Error::InvalidVersion {
        explanation: explanation.to_string(),
        span: None,
        text: NamedSource { name: "package.json".to_string(), source: String::new() },
    })
}

fn read(field: &str) -> Result<PackageManager, Error> {
    PackageManager::get_package_manager(Detectors::none(), &declaring(field))
}

#[test]
fn an_invalid_version_is_explained() {
    assert_eq!(
        read("yarn@900719925474100.0.0"),
        invalid_version(
            "Integer component of semver string is larger than JavaScript's \
             Number.MAX_SAFE_INTEGER: 900719925474100"
        )
    );
    assert_eq!(
        read("npm@0.99999999999999999999.0"),
        invalid_version(
            "Failed to parse an integer component of a semver string: number too large to fit in \
             target type"
        )
    );
    assert_eq!(
        read(&format!("npm@1.2.{}", "1".repeat(300))),
        invalid_version("Semver string can't be longer than 256 characters.")
    );
    assert!(matches!(read("npm@1.2.3- "), Err(Error::InvalidVersion { .. })));
    assert!(matches!(read("npm@٠.٩.1"), Err(Error::InvalidVersion { .. })));
    assert!(matches!(read("npm@1.2.３"), Err(Error::InvalidVersion { .. })));
}

#[test]
fn the_largest_numbers_are_read() {
    assert_eq!(
        read("pnpm@900719925474099.900719925474099.900719925474099"),
        Ok(PackageManager::Pnpm9)
    );
    assert_eq!(read("pnpm@0006.000.0"), Ok(PackageManager::Pnpm6));
}

#[test]
fn labels_do_not_matter() {
    assert_eq!(read("yarn@1.2.3-alpha.1"), Ok(PackageManager::Yarn));
    assert_eq!(read("yarn@3.0.0-rc.14"), Ok(PackageManager::Berry));
    assert_eq!(read("pnpm@9.0.0--x.0-y"), Ok(PackageManager::Pnpm9));
    assert_eq!(read("bun@1.0.0-canary+1"), Ok(PackageManager::Bun));
}

#[test]
fn versions_tell_managers_apart() {
    let version = |major: u64| Version { major, minor: 99, patch: 99 };
    assert_eq!(detect_berry_or_yarn(&version(1)), PackageManager::Yarn);
    assert_eq!(detect_berry_or_yarn(&version(2)), PackageManager::Berry);
    assert_eq!(detect_pnpm6_or_pnpm(&version(6)), PackageManager::Pnpm6);
    assert_eq!(detect_pnpm6_or_pnpm(&version(7)), PackageManager::Pnpm);
    assert_eq!(detect_pnpm6_or_pnpm(&version(8)), PackageManager::Pnpm);
    assert_eq!(detect_pnpm6_or_pnpm(&version(9)), PackageManager::Pnpm9);
}

#[test]
fn a_declared_manager_has_the_named_binary() {
    for (field, command) in [
        ("yarn@1.22.19", "yarn"),
        ("yarn@4.0.0", "yarn"),
        ("pnpm@6.35.1", "pnpm"),
        ("pnpm@8.6.0", "pnpm"),
        ("pnpm@9.1.0", "pnpm"),
        ("npm@10.0.0", "npm"),
        ("bun@1.1.0", "bun"),
        ("npm@https://x", "npm"),
        ("bun@https://x", "bun"),
    ] {
        assert_eq!(read(field).unwrap().command(), command);
    }
}

fn only_yarn(outcomes: Vec<Result<YarnVersion, Error>>) -> Detectors {
    Detectors { yarn: outcomes, ..Detectors::none() }
}

fn only_pnpm(outcomes: Vec<Result<PnpmVersion, Error>>) -> Detectors {
    Detectors { pnpm: outcomes, ..Detectors::none() }
}

#[test]
fn urls_are_left_to_the_detector() {
    assert_eq!(
        PackageManager::read_declaration(&declaring("yarn@https://x")),
        Ok(Declaration::Delegated(Detector::Yarn))
    );
    assert_eq!(
        PackageManager::read_declaration(&declaring("pnpm@http://x")),
        Ok(Declaration::Delegated(Detector::Pnpm))
    );
    assert_eq!(
        PackageManager::read_declaration(&declaring("npm@http://x")),
        Ok(Declaration::Known(PackageManager::Npm))
    );
    assert_eq!(read("yarn@https://x"), Err(Error::MissingPackageManager));
    assert_eq!(read("pnpm@https://x"), Err(Error::MissingPackageManager));
    assert_eq!(
        PackageManager::get_package_manager(
            only_yarn(vec![Ok(YarnVersion::Berry), Err(Error::BunBinaryLockfile)]),
            &declaring("yarn@https://x"),
        ),
        Ok(PackageManager::Berry)
    );
    assert_eq!(
        PackageManager::get_package_manager(
            only_pnpm(vec![Err(Error::Io("gone".to_string()))]),
            &declaring("pnpm@https://x"),
        ),
        Err(Error::Io("gone".to_string()))
    );
    assert_eq!(
        PackageManager::get_package_manager(
            only_yarn(vec![Ok(YarnVersion::Yarn1)]),
            &declaring("pnpm@https://x"),
        ),
        Err(Error::MissingPackageManager)
    );
}

#[test]
fn a_missing_field_is_an_error() {
    assert_eq!(
        PackageManager::get_package_manager(Detectors::none(), &PackageJson::default()),
        Err(Error::MissingPackageManager)
    );
}

#[test]
fn exactly_one_manager_is_detected() {
    assert_eq!(
        PackageManager::detect_package_manager(Detectors::none()),
        Err(Error::NoPackageManager(NoPackageManager))
    );
    assert_eq!(
        PackageManager::detect_package_manager(only_yarn(vec![Ok(YarnVersion::Berry)])),
        Ok(PackageManager::Berry)
    );
    assert_eq!(
        PackageManager::detect_package_manager(Detectors {
            pnpm: vec![Ok(PnpmVersion::Pnpm9)],
            npm: vec![Ok(NpmVersion)],
            yarn: vec![Ok(YarnVersion::Yarn1)],
            bun: vec![Ok(BunVersion)],
        }),
        Err(Error::MultiplePackageManagers {
            managers: vec![
                "pnpm9".to_string(),
                "npm".to_string(),
                "yarn".to_string(),
                "bun".to_string(),
            ],
        })
    );
}

#[test]
fn the_first_error_of_a_detector_decides() {
    let failing = || Detectors {
        pnpm: vec![Ok(PnpmVersion::Pnpm7And8)],
        npm: vec![],
        yarn: vec![Err(Error::Which("cannot find binary".to_string(), "yarn".to_string()))],
        bun: vec![],
    };
    let expected = Err(Error::Which("cannot find binary".to_string(), "yarn".to_string()));
    assert_eq!(PackageManager::detect_package_manager(failing()), expected);
    assert_eq!(
        PackageManager::detect_package_manager(Detectors {
            bun: vec![Err(Error::BunBinaryLockfile), Ok(BunVersion)],
            ..failing()
        }),
        expected
    );
}

#[test]
fn detection_steps_in_for_a_failed_reading() {
    let detectors = || only_pnpm(vec![Ok(PnpmVersion::Pnpm6)]);
    assert_eq!(
        PackageManager::read_or_detect_package_manager(&declaring("npm@1.2.3"), detectors()),
        Ok(PackageManager::Npm)
    );
    assert_eq!(
        PackageManager::read_or_detect_package_manager(&declaring("npm"), detectors()),
        Ok(PackageManager::Pnpm6)
    );
    assert_eq!(
        PackageManager::read_or_detect_package_manager(&PackageJson::default(), detectors()),
        Ok(PackageManager::Pnpm6)
    );
    assert_eq!(
        PackageManager::read_or_detect_package_manager(&declaring("pnpm@http://x"), detectors()),
        Ok(PackageManager::Pnpm6)
    );
    assert_eq!(
        PackageManager::read_or_detect_package_manager(&declaring("yarn@http://x"), detectors()),
        Ok(PackageManager::Pnpm6)
    );
    assert_eq!(
        PackageManager::read_or_detect_package_manager(
            &declaring("yarn@http://x"),
            Detectors::none()
        ),
        Err(Error::NoPackageManager(NoPackageManager))
    );
}

#[test]
fn a_delegated_manager_has_the_named_binary() {
    for version in [YarnVersion::Yarn1, YarnVersion::Berry] {
        let read = PackageManager::read_package_manager(
            only_yarn(vec![Ok(version)]),
            &declaring("yarn@https://x"),
        );
        assert_eq!(read, Ok(version.manager()));
        assert_eq!(version.manager().command(), "yarn");
    }
    for version in [PnpmVersion::Pnpm6, PnpmVersion::Pnpm7And8, PnpmVersion::Pnpm9] {
        let read = PackageManager::read_package_manager(
            only_pnpm(vec![Ok(version)]),
            &declaring("pnpm@https://x"),
        );
        assert_eq!(read, Ok(version.manager()));
        assert_eq!(version.manager().command(), "pnpm");
        assert_eq!(PnpmVersion::of_manager(&version.manager()), Some(version));
    }
    assert_eq!(NpmVersion.manager(), PackageManager::Npm);
    assert_eq!(BunVersion.manager(), PackageManager::Bun);
}

#[test]
fn an_unparsed_field_is_refused_alike() {
    let package_json = declaring("npm@latest");
    let parse_error = PackageManager::parse_package_manager_string(
        package_json.package_manager.as_ref().unwrap(),
    )
    .unwrap_err();
    assert_eq!(
        PackageManager::read_package_manager(Detectors::none(), &package_json),
        Err(parse_error)
    );
}

#[test]
fn a_declared_manager_needs_no_detection() {
    let declared = |field: &str, detectors: Detectors| {
        PackageManager::declared_manager(&declaring(field), &detectors)
    };
    assert_eq!(declared("npm@1.2.3", Detectors::none()), Some(PackageManager::Npm));
    assert_eq!(declared("npm", only_yarn(vec![Ok(YarnVersion::Yarn1)])), None);
    assert_eq!(declared("yarn@http://x", Detectors::none()), None);
    assert_eq!(
        declared("yarn@http://x", only_yarn(vec![Err(Error::BunBinaryLockfile)])),
        None
    );
    assert_eq!(
        declared("yarn@http://x", only_yarn(vec![Ok(YarnVersion::Berry)])),
        Some(PackageManager::Berry)
    );
}
