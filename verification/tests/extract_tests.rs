use altarik_launcher::errors::LauncherError;
use altarik_launcher::extract::{is_safe_entry_path, plan_zip_entry, ZipEntryPlan};

#[test]
fn ordinary_entry_paths_are_safe() {
    assert!(is_safe_entry_path("jre/bin/java"));
    assert!(is_safe_entry_path("file.txt"));
    assert!(is_safe_entry_path("a..b/c"));
    assert!(is_safe_entry_path("...x/hidden"));
}

#[test]
fn traversal_entry_paths_are_refused() {
    assert!(!is_safe_entry_path(""));
    assert!(!is_safe_entry_path("/etc/passwd"));
    assert!(!is_safe_entry_path(".."));
    assert!(!is_safe_entry_path("../outside"));
    assert!(!is_safe_entry_path("a/../b"));
    assert!(!is_safe_entry_path("a/b/.."));
}

#[test]
fn directory_entry_is_planned_under_the_destination() {
    let plan = plan_zip_entry("/root/runtime", "jre/bin", true).unwrap();
    match plan {
        ZipEntryPlan::Directory(p) => assert_eq!(p, "/root/runtime/jre/bin"),
        other => panic!("expected a directory plan, got {:?}", other),
    }
}

#[test]
fn file_entry_is_planned_under_the_destination() {
    let plan = plan_zip_entry("/root/runtime", "jre/bin/java", false).unwrap();
    match plan {
        ZipEntryPlan::File(p) => assert_eq!(p, "/root/runtime/jre/bin/java"),
        other => panic!("expected a file plan, got {:?}", other),
    }
}

#[test]
fn escaping_entry_is_an_extract_error() {
    let r = plan_zip_entry("/root/runtime", "../../etc/cron.d/evil", false);
    assert!(matches!(r, Err(LauncherError::ExtractError(_))));
}
