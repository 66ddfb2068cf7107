use doc::resolve::{config_location, config_path, config_root_value, resolve_root, trim_spaces};

#[test]
fn explicit_override_wins_over_everything() {
    let r = resolve_root(
        &Some("/override".to_string()),
        &Some("/from-config\n".to_string()),
        "/cwd",
    );
    assert_eq!(r, "/override");
}

#[test]
fn config_value_wins_without_override() {
    let r = resolve_root(&None, &Some("  /from-config \n".to_string()), "/cwd");
    assert_eq!(r, "/from-config");
}

#[test]
fn cwd_with_neither_override_nor_config() {
    let r = resolve_root(&None, &None, "/cwd");
    assert_eq!(r, "/cwd");
}

#[test]
fn empty_override_falls_through_to_config() {
    let r = resolve_root(&Some(String::new()), &Some("/from-config".to_string()), "/cwd");
    assert_eq!(r, "/from-config");
}

#[test]
fn whitespace_only_config_falls_through_to_cwd() {
    let r = resolve_root(&None, &Some(" \t\n".to_string()), "/cwd");
    assert_eq!(r, "/cwd");
}

#[test]
fn trim_drops_surrounding_whitespace_only() {
    assert_eq!(trim_spaces("  /a b\t\r\n"), "/a b");
    assert_eq!(trim_spaces(""), "");
    assert_eq!(trim_spaces("   "), "");
    assert_eq!(trim_spaces("x"), "x");
}

#[test]
fn config_root_value_of_blank_contents_is_none() {
    assert!(config_root_value("").is_none());
    assert!(config_root_value(" \n").is_none());
    assert_eq!(config_root_value("\n/proj\n").unwrap(), "/proj");
}

#[test]
fn config_path_appends_fixed_relative_path_to_home() {
    assert_eq!(config_path("/home/user"), "/home/user/.config/doc.conf");
    assert_eq!(config_path(""), "/.config/doc.conf");
}

#[test]
fn config_location_ends_with_fixed_relative_path() {
    if let Some(p) = config_location() {
        assert!(p.ends_with("/.config/doc.conf"));
    }
}
