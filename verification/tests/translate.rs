use doc::actions::{translate, Verb};

fn strings(v: &[&str]) -> Vec<String> {
    v.iter().map(|s| s.to_string()).collect()
}

#[test]
fn clean_yields_down_with_removal_flags() {
    let r = translate(Verb::Clean, &strings(&[]));
    assert_eq!(r.sub_action, "down");
    assert_eq!(r.args, strings(&["-v", "--rmi", "all"]));
    assert!(!r.needs_target);
}

#[test]
fn clean_extras_appended_after_flags() {
    let r = translate(Verb::Clean, &strings(&["--remove-orphans"]));
    assert_eq!(r.sub_action, "down");
    assert_eq!(r.args, strings(&["-v", "--rmi", "all", "--remove-orphans"]));
}

#[test]
fn start_detached_flag_precedes_extras() {
    let r = translate(Verb::Start, &strings(&["--build"]));
    assert_eq!(r.sub_action, "up");
    assert_eq!(r.args, strings(&["-d", "--build"]));
    assert!(!r.needs_target);
}

#[test]
fn shell_defaults_to_interactive_shell() {
    let r = translate(Verb::Shell, &strings(&[]));
    assert_eq!(r.sub_action, "exec");
    assert_eq!(r.args, strings(&["/bin/bash"]));
    assert!(r.needs_target);
}

#[test]
fn build_stop_logs_have_no_default_args() {
    let b = translate(Verb::Build, &strings(&[]));
    assert_eq!(b.sub_action, "build");
    assert!(b.args.is_empty());
    let s = translate(Verb::Stop, &strings(&[]));
    assert_eq!(s.sub_action, "down");
    assert!(s.args.is_empty());
    let l = translate(Verb::Logs, &strings(&[]));
    assert_eq!(l.sub_action, "logs");
    assert!(l.args.is_empty());
}

#[test]
fn only_shell_needs_a_target_token() {
    let verbs = [Verb::Build, Verb::Start, Verb::Stop, Verb::Clean, Verb::Logs];
    for v in verbs {
        assert!(!translate(v, &strings(&[])).needs_target);
    }
    assert!(translate(Verb::Shell, &strings(&[])).needs_target);
}
