use altarik_launcher::errors::LauncherError;
use altarik_launcher::manifest::{
    get_version_from_manifest, retain_applicable_libraries, should_use_library, LatestVersions,
    Library, LibraryArtifact, LibraryDownload, LibraryOSRule, LibraryRule, OSName, Version,
    VersionManifestV2, VersionType,
};

fn manifest_with(versions: Vec<Version>) -> VersionManifestV2 {
    VersionManifestV2 {
        latest: LatestVersions {
            release: String::from("1.19.4"),
            snapshot: String::from("23w13a"),
        },
        versions,
    }
}

fn version(id: &str, v_type: VersionType) -> Version {
    Version {
        id: String::from(id),
        v_type,
        url: format!("https://example.invalid/{}.json", id),
        sha1: String::from("da39a3ee5e6b4b0d3255bfef95601890afd80709"),
    }
}

fn library(name: &str, path: &str, rules: Option<Vec<LibraryRule>>) -> Library {
    Library {
        downloads: LibraryDownload {
            artifact: LibraryArtifact {
                path: String::from(path),
                sha1: String::from("f00"),
                size: 10,
                url: format!("https://libraries.example.invalid/{}", path),
            },
        },
        name: String::from(name),
        rules,
    }
}

fn rule(action: &str, os: OSName) -> LibraryRule {
    LibraryRule { action: String::from(action), os: LibraryOSRule { name: os } }
}

#[test]
fn find_version_matches_id_and_kind_exactly() {
    let m = manifest_with(vec![
        version("1.19.4", VersionType::Snapshot),
        version("1.19.4", VersionType::Release),
        version("1.20", VersionType::Release),
    ]);
    let v = get_version_from_manifest(&m, String::from("1.19.4"), &VersionType::Release).unwrap();
    assert_eq!(v.id, "1.19.4");
    assert!(matches!(v.v_type, VersionType::Release));
    assert_eq!(v.url, "https://example.invalid/1.19.4.json");
}

#[test]
fn find_version_refuses_the_wrong_kind() {
    let m = manifest_with(vec![version("1.19.4", VersionType::Snapshot)]);
    let r = get_version_from_manifest(&m, String::from("1.19.4"), &VersionType::Release);
    assert!(matches!(r, Err(LauncherError::VersionNotFound)));
}

#[test]
fn find_version_refuses_an_absent_id() {
    let m = manifest_with(vec![version("1.20", VersionType::Release)]);
    let r = get_version_from_manifest(&m, String::from("1.19.4"), &VersionType::Release);
    assert!(matches!(r, Err(LauncherError::VersionNotFound)));
}

#[test]
fn library_without_rules_is_always_included() {
    let lib = library("a:b:c", "a/b/c.jar", None);
    assert!(should_use_library(&lib, OSName::Linux));
    assert!(should_use_library(&lib, OSName::Windows));
    assert!(should_use_library(&lib, OSName::MacOsX));
}

#[test]
fn allow_linux_rule_includes_only_linux() {
    let lib = library("n", "p.jar", Some(vec![rule("allow", OSName::Linux)]));
    assert!(should_use_library(&lib, OSName::Linux));
    assert!(!should_use_library(&lib, OSName::Windows));
    assert!(!should_use_library(&lib, OSName::MacOsX));
}

#[test]
fn disallow_rule_excludes_its_platform() {
    let lib = library("n", "p.jar", Some(vec![rule("disallow", OSName::Windows)]));
    assert!(!should_use_library(&lib, OSName::Windows));
    // no rule names linux, so linux is excluded too
    assert!(!should_use_library(&lib, OSName::Linux));
}

#[test]
fn last_matching_rule_wins() {
    let lib = library(
        "n",
        "p.jar",
        Some(vec![rule("allow", OSName::Linux), rule("disallow", OSName::Linux)]),
    );
    assert!(!should_use_library(&lib, OSName::Linux));
    let lib2 = library(
        "n",
        "p.jar",
        Some(vec![rule("disallow", OSName::Linux), rule("allow", OSName::Linux)]),
    );
    assert!(should_use_library(&lib2, OSName::Linux));
}

#[test]
fn retain_keeps_applicable_libraries_in_order() {
    let mut libs = vec![
        library("keep-1", "k1.jar", None),
        library("drop-win", "d.jar", Some(vec![rule("allow", OSName::Windows)])),
        library("keep-2", "k2.jar", Some(vec![rule("allow", OSName::Linux)])),
    ];
    retain_applicable_libraries(&mut libs, OSName::Linux);
    assert_eq!(libs.len(), 2);
    assert_eq!(libs[0].name, "keep-1");
    assert_eq!(libs[1].name, "keep-2");
}
