//! The cross-platform script launcher: on a platform with a native POSIX
//! shell the setup script runs through it directly; on one without, an
//! ordered list of shell providers is tried until one starts, and when none
//! does the failure names the providers and the exact manual command. Each
//! attempt's outcome is fed back into a small state machine; the caller only
//! spawns the processes.

use vstd::prelude::*;

use crate::arg_views;
use crate::invocation::Invocation;

verus! {

/// One way of running a POSIX shell script, tried in a fixed order.
#[derive(Clone, Copy, PartialEq, Eq, Structural, Debug)]
pub enum ShellProvider {
    /// The platform's native POSIX shell.
    NativeShell,
    /// A POSIX-compatible shell bundled with other tooling.
    BundledShell,
    /// A compatibility subsystem that hosts a POSIX environment.
    CompatSubsystem,
    /// The platform's scripting language used to reach that subsystem.
    ScriptedSubsystem,
}

/// The providers to try, in order: the native shell alone where the platform
/// has one, else the bundled shell, then the compatibility subsystem, then
/// the scripting-language wrapper around it.
pub open spec fn spec_provider_order(native_posix: bool) -> Seq<ShellProvider> {
    if native_posix {
        seq![ShellProvider::NativeShell]
    } else {
        seq![
            ShellProvider::BundledShell,
            ShellProvider::CompatSubsystem,
            ShellProvider::ScriptedSubsystem,
        ]
    }
}

/// The ordered providers to try on this platform.
pub fn provider_order(native_posix: bool) -> (r: Vec<ShellProvider>)
    ensures
        r@ == spec_provider_order(native_posix),
{
    let mut v: Vec<ShellProvider> = Vec::new();
    if native_posix {
        v.push(ShellProvider::NativeShell);
        assert(v@ =~= spec_provider_order(native_posix));
    } else {
        v.push(ShellProvider::BundledShell);
        v.push(ShellProvider::CompatSubsystem);
        v.push(ShellProvider::ScriptedSubsystem);
        assert(v@ =~= spec_provider_order(native_posix));
    }
    v
}

/// A path in the syntax the POSIX providers expect: every backslash replaced
/// by a forward slash.
pub open spec fn spec_to_slash(s: Seq<char>) -> Seq<char> {
    s.map_values(
        |c: char|
            if c == '\\' {
                '/'
            } else {
                c
            },
    )
}

/// Translate a filesystem path into forward-slash syntax.
pub fn to_slash(s: &str) -> (r: String)
    ensures
        r@ == spec_to_slash(s@),
{
    let n = s.unicode_len();
    let mut r = String::new();
    let mut i: usize = 0;
    while i < n
        invariant
            i <= n,
            n == s@.len(),
            r@ == spec_to_slash(s@.subrange(0, i as int)),
        decreases n - i,
    {
        let c = s.get_char(i);
        if c == '\\' {
            r.append("/");
            proof {
                reveal_strlit("/");
            }
        } else {
            let piece = s.substring_char(i, i + 1);
            r.append(piece);
        }
        proof {
            assert(r@ =~= spec_to_slash(s@.subrange(0, i as int + 1)));
        }
        i += 1;
    }
    proof {
        assert(s@.subrange(0, n as int) =~= s@);
    }
    r
}

/// The executable a provider is started through.
pub open spec fn spec_provider_program(p: ShellProvider) -> Seq<char> {
    match p {
        ShellProvider::NativeShell => "sh"@,
        ShellProvider::BundledShell => "sh.exe"@,
        ShellProvider::CompatSubsystem => "wsl"@,
        ShellProvider::ScriptedSubsystem => "powershell"@,
    }
}

/// The argument vector a provider expects for a script and its positional
/// arguments: the script's path in the provider's own path syntax, preceded
/// by whatever tokens reach a shell through that provider.
pub open spec fn spec_provider_argv(
    p: ShellProvider,
    script: Seq<char>,
    args: Seq<Seq<char>>,
) -> Seq<Seq<char>> {
    match p {
        ShellProvider::NativeShell => seq![script] + args,
        ShellProvider::BundledShell => seq![spec_to_slash(script)] + args,
        ShellProvider::CompatSubsystem => seq!["sh"@, spec_to_slash(script)] + args,
        ShellProvider::ScriptedSubsystem => seq![
            "-Command"@,
            "wsl"@,
            "sh"@,
            spec_to_slash(script),
        ] + args,
    }
}

/// Build the process invocation that runs `script` with `args` through
/// provider `p`, in the given working directory.
pub fn provider_invocation(
    p: ShellProvider,
    script: &str,
    args: &Vec<String>,
    workdir: &str,
) -> (r: Invocation)
    ensures
        r.program@ == spec_provider_program(p),
        arg_views(r.args@) == spec_provider_argv(p, script@, arg_views(args@)),
        r.workdir matches Some(w) && w@ == workdir@,
{
    let program: String;
    let mut argv: Vec<String> = Vec::new();
    match p {
        ShellProvider::NativeShell => {
            program = String::from_str("sh");
            argv.push(String::from_str(script));
            assert(arg_views(argv@) =~= seq![script@]);
        },
        ShellProvider::BundledShell => {
            program = String::from_str("sh.exe");
            argv.push(to_slash(script));
            assert(arg_views(argv@) =~= seq![spec_to_slash(script@)]);
        },
        ShellProvider::CompatSubsystem => {
            program = String::from_str("wsl");
            argv.push(String::from_str("sh"));
            argv.push(to_slash(script));
            assert(arg_views(argv@) =~= seq!["sh"@, spec_to_slash(script@)]);
        },
        ShellProvider::ScriptedSubsystem => {
            program = String::from_str("powershell");
            argv.push(String::from_str("-Command"));
            argv.push(String::from_str("wsl"));
            argv.push(String::from_str("sh"));
            argv.push(to_slash(script));
            assert(arg_views(argv@) =~= seq!["-Command"@, "wsl"@, "sh"@, spec_to_slash(script@)]);
        },
    }
    crate::push_args(&mut argv, args);
    Invocation { program, args: argv, workdir: Some(String::from_str(workdir)) }
}

/// The state of the ordered fallback across providers.
#[derive(Clone, Copy, PartialEq, Eq, Structural, Debug)]
pub enum LaunchPhase {
    /// The provider at this position of the order is to be attempted next.
    Trying { index: usize },
    /// A provider started; the script ran and exited with this status.
    Launched { status: i32 },
    /// Every provider failed to start: a terminal failure, never retried.
    Exhausted,
}

/// The next phase after attempting the pending provider: `started` says
/// whether the provider's process could be started at all, and `status` is
/// the script's exit status when it was. A provider that starts ends the
/// fallback with that status, whatever it is; one that does not hands over to
/// the next provider of the order, and after the last the fallback is
/// exhausted.
pub open spec fn spec_launch_advance(
    p: LaunchPhase,
    provider_count: nat,
    started: bool,
    status: int,
) -> LaunchPhase {
    match p {
        LaunchPhase::Trying { index } => if started {
            LaunchPhase::Launched { status: status as i32 }
        } else if index + 1 < provider_count {
            LaunchPhase::Trying { index: (index + 1) as usize }
        } else {
            LaunchPhase::Exhausted
        },
        LaunchPhase::Launched { status: s } => LaunchPhase::Launched { status: s },
        LaunchPhase::Exhausted => LaunchPhase::Exhausted,
    }
}

/// Advance the fallback after one attempt.
pub fn launch_advance(p: LaunchPhase, provider_count: usize, started: bool, status: i32) -> (r:
    LaunchPhase)
    requires
        p matches LaunchPhase::Trying { index } ==> index < provider_count,
    ensures
        r == spec_launch_advance(p, provider_count as nat, started, status as int),
{
    match p {
        LaunchPhase::Trying { index } => {
            if started {
                LaunchPhase::Launched { status }
            } else if index + 1 < provider_count {
                LaunchPhase::Trying { index: index + 1 }
            } else {
                LaunchPhase::Exhausted
            }
        },
        LaunchPhase::Launched { status: s } => LaunchPhase::Launched { status: s },
        LaunchPhase::Exhausted => LaunchPhase::Exhausted,
    }
}

/// Law: an attempt that starts ends the fallback at once with the script's
/// status, and an attempt that does not start never does — later providers
/// or exhaustion follow instead.
pub proof fn lemma_first_start_wins(index: usize, provider_count: nat, status: i32)
    requires
        index < provider_count,
    ensures
        spec_launch_advance(LaunchPhase::Trying { index }, provider_count, true, status as int)
            == (LaunchPhase::Launched { status }),
        index + 1 < provider_count ==> spec_launch_advance(
            LaunchPhase::Trying { index },
            provider_count,
            false,
            status as int,
        ) == (LaunchPhase::Trying { index: (index + 1) as usize }),
        index + 1 == provider_count ==> spec_launch_advance(
            LaunchPhase::Trying { index },
            provider_count,
            false,
            status as int,
        ) == LaunchPhase::Exhausted,
{
}

/// The executable name of one provider, for the failure line.
fn provider_program_name(p: ShellProvider) -> (r: String)
    ensures
        r@ == spec_provider_program(p),
{
    match p {
        ShellProvider::NativeShell => String::from_str("sh"),
        ShellProvider::BundledShell => String::from_str("sh.exe"),
        ShellProvider::CompatSubsystem => String::from_str("wsl"),
        ShellProvider::ScriptedSubsystem => String::from_str("powershell"),
    }
}

/// The providers' executable names, comma-separated, in order.
pub open spec fn spec_provider_list(ps: Seq<ShellProvider>) -> Seq<char>
    decreases ps.len(),
{
    if ps.len() == 0 {
        Seq::empty()
    } else if ps.len() == 1 {
        spec_provider_program(ps.last())
    } else {
        spec_provider_list(ps.drop_last()) + ", "@ + spec_provider_program(ps.last())
    }
}

/// Name the providers of one order, comma-separated.
fn provider_list(ps: &Vec<ShellProvider>) -> (r: String)
    ensures
        r@ == spec_provider_list(ps@),
{
    let mut m = String::new();
    let mut i: usize = 0;
    while i < ps.len()
        invariant
            i <= ps.len(),
            m@ == spec_provider_list(ps@.subrange(0, i as int)),
        decreases ps.len() - i,
    {
        if i > 0 {
            m.append(", ");
        }
        let name = provider_program_name(ps[i]);
        m.append(name.as_str());
        proof {
            let taken = ps@.subrange(0, i as int + 1);
            assert(taken.drop_last() =~= ps@.subrange(0, i as int));
            assert(taken.last() == ps@[i as int]);
            assert(m@ =~= spec_provider_list(taken));
        }
        i += 1;
    }
    assert(ps@.subrange(0, ps.len() as int) =~= ps@);
    m
}

/// The actionable failure line once every provider of an order failed to
/// start: the providers that were tried, then the exact manual command the
/// user can run, the script's translated path included.
pub open spec fn spec_fallback_message(providers: Seq<ShellProvider>, script: Seq<char>) -> Seq<
    char,
> {
    "Error: no POSIX shell could be started (tried "@ + spec_provider_list(providers)
        + "). Run the setup script yourself: sh "@ + spec_to_slash(script)
}

/// Build the failure line for an exhausted fallback over `providers`.
pub fn fallback_message(providers: &Vec<ShellProvider>, script: &str) -> (r: String)
    ensures
        r@ == spec_fallback_message(providers@, script@),
        spec_to_slash(script@).is_suffix_of(r@),
{
    let mut m = String::from_str("Error: no POSIX shell could be started (tried ");
    let list = provider_list(providers);
    m.append(list.as_str());
    m.append("). Run the setup script yourself: sh ");
    let ghost head = m@;
    let translated = to_slash(script);
    m.append(translated.as_str());
    proof {
        crate::errors::lemma_suffix_of_concat(head, spec_to_slash(script@));
    }
    m
}

} // verus!
