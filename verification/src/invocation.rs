//! The process invoker's argument shaping: one external-process call is an
//! argument vector for the orchestration tool, built from the orchestration
//! file, the sub-action, an optional target-service token, and trailing
//! arguments. The caller spawns the process and reports its exit status back.

use vstd::prelude::*;

use crate::arg_views;
use crate::opt_view;

verus! {

/// The name of the orchestration tool's executable.
pub open spec fn spec_tool_name() -> Seq<char> {
    "docker-compose"@
}

/// One external-process call: a program, its ordered argument vector, and an
/// optional working directory. Constructed by the dispatch layer, consumed
/// immediately by the caller that spawns the process, never retained.
pub struct Invocation {
    pub program: String,
    pub args: Vec<String>,
    pub workdir: Option<String>,
}

/// The argument vector of one orchestration-tool call: the file-selection
/// flag with the orchestration file, the sub-action, the target token only
/// when the sub-action takes one, then the remaining arguments.
pub open spec fn spec_tool_argv(
    file: Seq<char>,
    sub_action: Seq<char>,
    target: Option<Seq<char>>,
    args: Seq<Seq<char>>,
) -> Seq<Seq<char>> {
    let head = seq!["-f"@, file, sub_action];
    match target {
        Some(t) => head.push(t) + args,
        None => head + args,
    }
}

/// Build the orchestration-tool invocation for one sub-action against one
/// orchestration file. No working directory is set: the tool is run where the
/// command was issued.
pub fn build_invocation(
    file: &str,
    sub_action: &str,
    target: &Option<String>,
    args: &Vec<String>,
) -> (r: Invocation)
    ensures
        r.program@ == spec_tool_name(),
        arg_views(r.args@) == spec_tool_argv(file@, sub_action@, opt_view(*target), arg_views(args@)),
        r.workdir is None,
{
    let mut argv: Vec<String> = Vec::new();
    argv.push(String::from_str("-f"));
    argv.push(String::from_str(file));
    argv.push(String::from_str(sub_action));
    match target {
        Some(t) => {
            argv.push(t.clone());
            assert(arg_views(argv@) =~= seq!["-f"@, file@, sub_action@].push(t@));
        },
        None => {
            assert(arg_views(argv@) =~= seq!["-f"@, file@, sub_action@]);
        },
    }
    crate::push_args(&mut argv, args);
    Invocation { program: String::from_str("docker-compose"), args: argv, workdir: None }
}

/// The exit status of an external process that has terminated: its own code
/// where it exited with one, and 1 where it was ended by a signal and
/// reported none.
pub open spec fn spec_status_of(code: Option<i32>) -> int {
    match code {
        Some(c) => c as int,
        None => 1,
    }
}

/// Map a terminated process's optional exit code to the status this core
/// works with.
pub fn status_of(code: Option<i32>) -> (r: i32)
    ensures
        r as int == spec_status_of(code),
{
    match code {
        Some(c) => c,
        None => 1,
    }
}

} // verus!
