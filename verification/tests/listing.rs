use doc::listing::{diagnostic_allowed, list_services, DirEntryInfo};

fn entry(name: &str, is_dir: bool, has_file: bool) -> DirEntryInfo {
    DirEntryInfo {
        name: name.to_string(),
        is_dir,
        has_orchestration_file: has_file,
    }
}

#[test]
fn list_keeps_only_directories_with_orchestration_file() {
    let entries = vec![
        entry("alpha", true, true),
        entry("notes.txt", false, false),
        entry("empty", true, false),
        entry("beta", true, true),
        entry("stray.yml", false, true),
    ];
    let names = list_services(&entries);
    assert_eq!(names, vec!["alpha".to_string(), "beta".to_string()]);
}

#[test]
fn list_of_nothing_is_empty() {
    let names = list_services(&Vec::new());
    assert!(names.is_empty());
}

#[test]
fn list_keeps_reported_order() {
    let entries = vec![
        entry("c", true, true),
        entry("a", true, true),
        entry("b", true, true),
    ];
    let names = list_services(&entries);
    assert_eq!(names, vec!["c".to_string(), "a".to_string(), "b".to_string()]);
}

#[test]
fn diagnostics_allow_only_fixed_service() {
    assert!(diagnostic_allowed("torrent"));
    assert!(!diagnostic_allowed("web"));
    assert!(!diagnostic_allowed(""));
    assert!(!diagnostic_allowed("torrents"));
}
