use doc::actions::Verb;
use doc::dispatch::{check_diagnostic_target, plan_action, plan_run, target_token};
use doc::errors::DocError;
use doc::invocation::{build_invocation, status_of};

fn strings(v: &[&str]) -> Vec<String> {
    v.iter().map(|s| s.to_string()).collect()
}

#[test]
fn start_invocation_end_to_end() {
    let inv = plan_action("/proj", "demo", Verb::Start, &strings(&[]), &None, true).unwrap();
    assert_eq!(inv.program, "docker-compose");
    assert_eq!(
        inv.args,
        strings(&["-f", "/proj/demo/docker-compose.yml", "up", "-d"])
    );
    assert!(inv.workdir.is_none());
}

#[test]
fn shell_invocation_inserts_target_token() {
    let inv = plan_action("/proj", "demo", Verb::Shell, &strings(&[]), &None, true).unwrap();
    assert_eq!(
        inv.args,
        strings(&["-f", "/proj/demo/docker-compose.yml", "exec", "demo", "/bin/bash"])
    );
}

#[test]
fn target_override_replaces_directory_name() {
    let over = Some("web".to_string());
    let inv = plan_action("/proj", "demo", Verb::Shell, &strings(&[]), &over, true).unwrap();
    assert_eq!(
        inv.args,
        strings(&["-f", "/proj/demo/docker-compose.yml", "exec", "web", "/bin/bash"])
    );
    assert_eq!(target_token("demo", &over), "web");
    assert_eq!(target_token("demo", &None), "demo");
}

#[test]
fn clean_invocation_carries_removal_flags() {
    let inv = plan_action("/proj", "demo", Verb::Clean, &strings(&[]), &None, true).unwrap();
    assert_eq!(
        inv.args,
        strings(&["-f", "/proj/demo/docker-compose.yml", "down", "-v", "--rmi", "all"])
    );
}

#[test]
fn dispatch_against_missing_file_fails_naming_service() {
    for verb in [Verb::Build, Verb::Start, Verb::Shell, Verb::Stop, Verb::Clean, Verb::Logs] {
        let r = plan_action("/proj", "ghost", verb, &strings(&[]), &None, false);
        match r {
            Ok(_) => panic!("dispatch planned an invocation without an orchestration file"),
            Err(e) => {
                assert!(matches!(&e, DocError::ServiceNotFound { service } if service == "ghost"));
            }
        }
    }
}

#[test]
fn build_invocation_without_target() {
    let inv = build_invocation("/p/s/docker-compose.yml", "logs", &None, &strings(&["-f"]));
    assert_eq!(inv.program, "docker-compose");
    assert_eq!(inv.args, strings(&["-f", "/p/s/docker-compose.yml", "logs", "-f"]));
}

#[test]
fn run_plan_shapes_three_invocations() {
    let plan = plan_run("/proj", "demo", &strings(&["echo", "hi"]), &None, true).unwrap();
    assert_eq!(plan.start.program, "docker-compose");
    assert_eq!(
        plan.start.args,
        strings(&["-f", "/proj/demo/docker-compose.yml", "up", "-d"])
    );
    assert_eq!(
        plan.exec_step.args,
        strings(&["-f", "/proj/demo/docker-compose.yml", "exec", "demo", "echo", "hi"])
    );
    assert_eq!(
        plan.stop.args,
        strings(&["-f", "/proj/demo/docker-compose.yml", "down"])
    );
}

#[test]
fn run_plan_against_missing_file_fails() {
    let r = plan_run("/proj", "ghost", &strings(&["true"]), &None, false);
    assert!(matches!(r, Err(DocError::ServiceNotFound { .. })));
}

#[test]
fn status_of_signal_termination_is_one() {
    assert_eq!(status_of(None), 1);
    assert_eq!(status_of(Some(0)), 0);
    assert_eq!(status_of(Some(42)), 42);
}

#[test]
fn diagnostic_allowlist_gates_services() {
    assert!(check_diagnostic_target("torrent").is_ok());
    let r = check_diagnostic_target("web");
    assert!(matches!(r, Err(DocError::UnsupportedService { service }) if service == "web"));
}
