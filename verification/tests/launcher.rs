use doc::launcher::{
    fallback_message, launch_advance, provider_invocation, provider_order, to_slash, LaunchPhase,
    ShellProvider,
};

fn strings(v: &[&str]) -> Vec<String> {
    v.iter().map(|s| s.to_string()).collect()
}

#[test]
fn native_platform_uses_single_provider() {
    assert_eq!(provider_order(true), vec![ShellProvider::NativeShell]);
}

#[test]
fn fallback_order_without_native_shell() {
    assert_eq!(
        provider_order(false),
        vec![
            ShellProvider::BundledShell,
            ShellProvider::CompatSubsystem,
            ShellProvider::ScriptedSubsystem,
        ]
    );
}

#[test]
fn to_slash_translates_backslashes() {
    assert_eq!(to_slash("C:\\proj\\setup.sh"), "C:/proj/setup.sh");
    assert_eq!(to_slash("/already/posix"), "/already/posix");
    assert_eq!(to_slash(""), "");
}

#[test]
fn native_shell_invocation_shape() {
    let inv = provider_invocation(ShellProvider::NativeShell, "/p/setup.sh", &strings(&["arg"]), "/p");
    assert_eq!(inv.program, "sh");
    assert_eq!(inv.args, strings(&["/p/setup.sh", "arg"]));
    assert_eq!(inv.workdir.as_deref(), Some("/p"));
}

#[test]
fn bundled_shell_invocation_translates_path() {
    let inv = provider_invocation(ShellProvider::BundledShell, "C:\\p\\setup.sh", &strings(&[]), "C:\\p");
    assert_eq!(inv.program, "sh.exe");
    assert_eq!(inv.args, strings(&["C:/p/setup.sh"]));
}

#[test]
fn subsystem_invocations_wrap_shell_call() {
    let inv = provider_invocation(ShellProvider::CompatSubsystem, "C:\\p\\s.sh", &strings(&["x"]), "C:\\p");
    assert_eq!(inv.program, "wsl");
    assert_eq!(inv.args, strings(&["sh", "C:/p/s.sh", "x"]));
    let inv = provider_invocation(ShellProvider::ScriptedSubsystem, "C:\\p\\s.sh", &strings(&[]), "C:\\p");
    assert_eq!(inv.program, "powershell");
    assert_eq!(inv.args, strings(&["-Command", "wsl", "sh", "C:/p/s.sh"]));
}

#[test]
fn first_provider_that_starts_wins() {
    let p = launch_advance(LaunchPhase::Trying { index: 0 }, 3, true, 7);
    assert_eq!(p, LaunchPhase::Launched { status: 7 });
    // a started provider ends the fallback even on a failing script
    let p = launch_advance(LaunchPhase::Trying { index: 1 }, 3, true, 1);
    assert_eq!(p, LaunchPhase::Launched { status: 1 });
}

#[test]
fn all_providers_failing_to_start_exhausts_fallback() {
    let mut p = LaunchPhase::Trying { index: 0 };
    p = launch_advance(p, 3, false, 0);
    assert_eq!(p, LaunchPhase::Trying { index: 1 });
    p = launch_advance(p, 3, false, 0);
    assert_eq!(p, LaunchPhase::Trying { index: 2 });
    p = launch_advance(p, 3, false, 0);
    assert_eq!(p, LaunchPhase::Exhausted);
}

#[test]
fn fallback_message_ends_with_manual_command_script() {
    let m = fallback_message(&provider_order(false), "C:\\p\\setup.sh");
    assert_eq!(
        m,
        "Error: no POSIX shell could be started (tried sh.exe, wsl, powershell). \
         Run the setup script yourself: sh C:/p/setup.sh"
    );
    assert!(m.ends_with("C:/p/setup.sh"));
}

#[test]
fn fallback_message_names_only_tried_providers() {
    let m = fallback_message(&provider_order(true), "/p/setup.sh");
    assert_eq!(
        m,
        "Error: no POSIX shell could be started (tried sh). \
         Run the setup script yourself: sh /p/setup.sh"
    );
}
