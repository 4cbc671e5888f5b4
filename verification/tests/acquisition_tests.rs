use altarik_launcher::altarik::{
    Chapter, Java, JavaDetails, JavaPlatform, JavaPlatformArch, ModsPack,
};
use altarik_launcher::auth::GameProfile;
use altarik_launcher::errors::LauncherError;
use altarik_launcher::launcher::{
    check_remote_sha1, index_file_path, modpack_directory, needs_download, plan_asset,
    plan_library, required_directories, volatile_directories, ClientOptions, MinecraftClient,
};
use altarik_launcher::manifest::{
    AssetEntry, AssetIndex, AssetObject, AssetsManifest, Library, LibraryArtifact,
    LibraryDownload, LibraryOSRule, LibraryRule, OSName, VersionDetail, VersionType,
};
use altarik_launcher::progress::{acquisition_event_plan, progress_message, ProgressMessage, Stage};

fn library(name: &str, path: &str, rules: Option<Vec<LibraryRule>>) -> Library {
    Library {
        downloads: LibraryDownload {
            artifact: LibraryArtifact {
                path: String::from(path),
                sha1: String::from("abc123"),
                size: 77,
                url: format!("https://libraries.example.invalid/{}", path),
            },
        },
        name: String::from(name),
        rules,
    }
}

fn asset(name: &str, hash: &str, size: u64) -> AssetEntry {
    AssetEntry {
        name: String::from(name),
        object: AssetObject { hash: String::from(hash), size },
    }
}

fn test_client(libraries: Vec<Library>, assets: Vec<AssetEntry>, mods: usize) -> MinecraftClient {
    let chapter = Chapter {
        title: String::from("Chapter One"),
        description: String::from("the first chapter"),
        minecraft_version: String::from("1.19.4"),
        mc_type: String::from("release"),
        custom_version: String::from("fabric-1"),
        modspack: ModsPack {
            mods: (0..mods).map(|i| format!("https://mods.example.invalid/{}.zip", i)).collect(),
            sha1sum: (0..mods).map(|i| format!("{:040}", i)).collect(),
        },
        java: Java {
            platform: JavaPlatform {
                win32: None,
                linux: Some(JavaPlatformArch {
                    x64: JavaDetails {
                        name: String::from("jre-linux"),
                        link: String::from("https://java.example.invalid/jre.tar.gz"),
                        sha256sum: String::from("00"),
                    },
                }),
            },
        },
    };
    let details = VersionDetail {
        arguments: String::from("{}"),
        asset_index: AssetIndex {
            id: String::from("3"),
            sha1: String::from("da39"),
            size: 10,
            total_size: 100,
            url: String::from("https://example.invalid/assets/3.json"),
        },
        assets: String::from("3"),
        compliance_level: 1,
        downloads: String::from("{}"),
        id: String::from("1.19.4"),
        java_version: String::from("{}"),
        libraries,
        logging: String::from("{}"),
        main_class: String::from("net.minecraft.client.main.Main"),
        v_type: VersionType::Release,
    };
    let opts = ClientOptions {
        authorization: GameProfile {
            id: String::from("u"),
            name: String::from("N"),
            skins: vec![],
            capes: vec![],
        },
        root_path: String::from("/data/.altarik"),
        java_path: String::from("/data/.altarik/java"),
        version_number: String::from("1.19.4"),
        version_type: VersionType::Release,
        memory_min: String::from("2G"),
        memory_max: String::from("4G"),
    };
    MinecraftClient::new(
        opts,
        details,
        AssetsManifest { objects: assets },
        chapter,
        OSName::Linux,
    )
}

#[test]
fn required_directories_are_exact_and_ordered() {
    let dirs = required_directories("/r");
    let expected = vec![
        "/r/libraries",
        "/r/assets/objects",
        "/r/assets/indexes",
        "/r/runtime/download",
        "/r/mods",
    ];
    assert_eq!(dirs, expected);
}

#[test]
fn volatile_directories_are_mods_and_versions() {
    assert_eq!(volatile_directories("/r"), vec!["/r/mods", "/r/versions"]);
}

#[test]
fn modpack_directory_carries_the_chapter_title() {
    assert_eq!(modpack_directory("/r", "Chapter One"), "/r/modpack/Chapter One");
}

#[test]
fn index_file_path_is_exact() {
    assert_eq!(index_file_path("/r", "3"), "/r/assets/indexes/3.json");
}

#[test]
fn plan_library_splits_the_artifact_path() {
    let lib = library("com.google:guava", "com/google/guava/guava-31.jar", None);
    let task = plan_library(&lib, "/r/libraries");
    assert_eq!(task.dir_path, "/r/libraries/com/google/guava");
    assert_eq!(task.file_path, "/r/libraries/com/google/guava/guava-31.jar");
    assert_eq!(
        task.url,
        "https://libraries.example.invalid/com/google/guava/guava-31.jar"
    );
    assert_eq!(
        task.sha_url,
        "https://libraries.example.invalid/com/google/guava/guava-31.jar.sha1"
    );
    assert_eq!(task.size, 77);
    assert_eq!(task.sha1, "abc123");
}

#[test]
fn plan_library_with_a_bare_filename() {
    let lib = library("flat", "flat.jar", None);
    let task = plan_library(&lib, "/r/libraries");
    assert_eq!(task.dir_path, "/r/libraries");
    assert_eq!(task.file_path, "/r/libraries/flat.jar");
}

#[test]
fn matching_local_size_needs_no_download() {
    assert!(!needs_download(Some(77), 77));
    assert!(needs_download(Some(76), 77));
    assert!(needs_download(None, 77));
}

#[test]
fn absent_remote_sha1_document_is_tolerated() {
    let r = check_remote_sha1(None, &String::from("abc"), &String::from("lib"));
    assert!(r.is_ok());
}

#[test]
fn agreeing_remote_sha1_passes() {
    let r = check_remote_sha1(
        Some(&String::from("abc")),
        &String::from("abc"),
        &String::from("lib"),
    );
    assert!(r.is_ok());
}

#[test]
fn disagreeing_remote_sha1_is_an_integrity_violation() {
    // the local file's bytes play no part: the two declarations disagree
    let r = check_remote_sha1(
        Some(&String::from("1111")),
        &String::from("2222"),
        &String::from("com.google:guava"),
    );
    match r {
        Err(LauncherError::IntegrityViolation { artifact, expected, actual }) => {
            assert_eq!(artifact, "com.google:guava");
            assert_eq!(expected, "2222");
            assert_eq!(actual, "1111");
        },
        other => panic!("expected an integrity violation, got {:?}", other),
    }
}

#[test]
fn plan_asset_is_content_addressed() {
    let obj = AssetObject { hash: String::from("91a4db2b09e2967c7d0d52a07d9e7b1f0bc82a52"), size: 9 };
    let task = plan_asset(&obj, "/r/assets/objects");
    assert_eq!(task.two_hex, "91");
    assert_eq!(task.dir_path, "/r/assets/objects/91");
    assert_eq!(
        task.file_path,
        "/r/assets/objects/91/91a4db2b09e2967c7d0d52a07d9e7b1f0bc82a52"
    );
    assert_eq!(
        task.url,
        "https://resources.download.minecraft.net/91/91a4db2b09e2967c7d0d52a07d9e7b1f0bc82a52"
    );
    assert_eq!(task.size, 9);
}

fn event(msg: &ProgressMessage) -> (String, usize, usize) {
    (msg.p_type.clone(), msg.current, msg.total)
}

#[test]
fn plan_emits_one_event_per_artifact_in_stage_order() {
    let plan = acquisition_event_plan(2, 3, 4);
    let got: Vec<(String, usize, usize)> = plan.iter().map(event).collect();
    let expected: Vec<(String, usize, usize)> = vec![
        (String::from("java"), 1, 1),
        (String::from("mods"), 1, 2),
        (String::from("mods"), 2, 2),
        (String::from("libraries"), 1, 3),
        (String::from("libraries"), 2, 3),
        (String::from("libraries"), 3, 3),
        (String::from("assets"), 1, 4),
        (String::from("assets"), 2, 4),
        (String::from("assets"), 3, 4),
        (String::from("assets"), 4, 4),
        (String::from("completed"), 0, 0),
    ];
    assert_eq!(got, expected);
}

#[test]
fn plan_does_not_depend_on_artifact_validity() {
    // the plan takes only counts: a run that downloads nothing and a run
    // that downloads everything report the same events
    let a: Vec<(String, usize, usize)> = acquisition_event_plan(1, 2, 3).iter().map(event).collect();
    let b: Vec<(String, usize, usize)> = acquisition_event_plan(1, 2, 3).iter().map(event).collect();
    assert_eq!(a, b);
}

#[test]
fn full_run_with_three_libraries_five_assets_two_mods() {
    // three libraries, of which two apply on linux
    let libraries = vec![
        library("keep-plain", "a/plain.jar", None),
        library(
            "drop-windows-only",
            "b/win.jar",
            Some(vec![LibraryRule {
                action: String::from("allow"),
                os: LibraryOSRule { name: OSName::Windows },
            }]),
        ),
        library(
            "keep-linux",
            "c/linux.jar",
            Some(vec![LibraryRule {
                action: String::from("allow"),
                os: LibraryOSRule { name: OSName::Linux },
            }]),
        ),
    ];
    let assets = (0..5)
        .map(|i| asset(&format!("a{}", i), &format!("{:040x}", i + 16), i as u64))
        .collect();
    let mut client = test_client(libraries, assets, 2);
    client.filter_non_necessary_librairies();
    assert_eq!(client.details.libraries.len(), 2);
    let plan = client.acquisition_plan();
    let got: Vec<(String, usize, usize)> = plan.iter().map(event).collect();
    let expected: Vec<(String, usize, usize)> = vec![
        (String::from("java"), 1, 1),
        (String::from("mods"), 1, 2),
        (String::from("mods"), 2, 2),
        (String::from("libraries"), 1, 2),
        (String::from("libraries"), 2, 2),
        (String::from("assets"), 1, 5),
        (String::from("assets"), 2, 5),
        (String::from("assets"), 3, 5),
        (String::from("assets"), 4, 5),
        (String::from("assets"), 5, 5),
        (String::from("completed"), 0, 0),
    ];
    assert_eq!(got, expected);
}

#[test]
fn stage_tags_serialize_to_their_wire_names() {
    assert_eq!(Stage::Java.tag(), "java");
    assert_eq!(Stage::Mods.tag(), "mods");
    assert_eq!(Stage::Libraries.tag(), "libraries");
    assert_eq!(Stage::Assets.tag(), "assets");
    assert_eq!(Stage::Extract.tag(), "extract");
    assert_eq!(Stage::Completed.tag(), "completed");
}

#[test]
fn progress_message_carries_stage_and_position() {
    let m = progress_message(Stage::Extract, 3, 9);
    assert_eq!((m.p_type.as_str(), m.current, m.total), ("extract", 3, 9));
}

#[test]
fn plan_libraries_lays_out_every_library() {
    let libs = vec![
        library("one", "a/one.jar", None),
        library("two", "b/c/two.jar", None),
    ];
    let tasks = altarik_launcher::launcher::plan_libraries(&libs, "/r/libraries");
    assert_eq!(tasks.len(), 2);
    assert_eq!(tasks[0].file_path, "/r/libraries/a/one.jar");
    assert_eq!(tasks[1].file_path, "/r/libraries/b/c/two.jar");
    assert_eq!(tasks[1].dir_path, "/r/libraries/b/c");
}

#[test]
fn plan_assets_lays_out_every_object() {
    let objects = vec![
        asset("a", "00112233445566778899aabbccddeeff00112233", 1),
        asset("b", "ffeeddccbbaa99887766554433221100ffeeddcc", 2),
    ];
    let tasks = altarik_launcher::launcher::plan_assets(&objects, "/r/assets/objects");
    assert_eq!(tasks.len(), 2);
    assert_eq!(
        tasks[0].file_path,
        "/r/assets/objects/00/00112233445566778899aabbccddeeff00112233"
    );
    assert_eq!(tasks[1].two_hex, "ff");
}

#[test]
fn category_roots_are_exact() {
    assert_eq!(altarik_launcher::launcher::libraries_directory("/r"), "/r/libraries");
    assert_eq!(
        altarik_launcher::launcher::assets_objects_directory("/r"),
        "/r/assets/objects"
    );
}

#[test]
fn library_decision_flags_tampering_whatever_the_local_file_holds() {
    // the local size matches, yet the remote declaration disagrees: fatal
    let r = altarik_launcher::launcher::library_fetch_decision(
        Some(77),
        Some(&String::from("1111")),
        &String::from("2222"),
        77,
        &String::from("lib"),
    );
    assert!(matches!(r, Err(LauncherError::IntegrityViolation { .. })));
    // with an agreeing or absent declaration, the size alone decides
    let r = altarik_launcher::launcher::library_fetch_decision(
        Some(77),
        Some(&String::from("2222")),
        &String::from("2222"),
        77,
        &String::from("lib"),
    );
    assert_eq!(r.unwrap(), false);
    let r = altarik_launcher::launcher::library_fetch_decision(
        None,
        None,
        &String::from("2222"),
        77,
        &String::from("lib"),
    );
    assert_eq!(r.unwrap(), true);
}
