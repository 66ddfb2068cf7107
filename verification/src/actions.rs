//! The action translator: the fixed table from user-facing verbs to the
//! orchestration tool's sub-actions and default argument lists.

use vstd::prelude::*;

use crate::arg_views;

verus! {

/// A user-facing verb that maps to exactly one orchestration-tool sub-action.
#[derive(Clone, Copy, PartialEq, Eq, Structural, Debug)]
pub enum Verb {
    Build,
    Start,
    Shell,
    Stop,
    Clean,
    Logs,
}

/// The orchestration tool's own sub-action name for a verb.
pub open spec fn spec_sub_action(v: Verb) -> Seq<char> {
    match v {
        Verb::Build => "build"@,
        Verb::Start => "up"@,
        Verb::Shell => "exec"@,
        Verb::Stop => "down"@,
        Verb::Clean => "down"@,
        Verb::Logs => "logs"@,
    }
}

/// The fixed arguments a verb prepends before any user-supplied extras:
/// `start` runs detached, `shell` opens an interactive shell, and `clean`
/// removes volumes and all images.
pub open spec fn spec_default_args(v: Verb) -> Seq<Seq<char>> {
    match v {
        Verb::Build => seq![],
        Verb::Start => seq!["-d"@],
        Verb::Shell => seq!["/bin/bash"@],
        Verb::Stop => seq![],
        Verb::Clean => seq!["-v"@, "--rmi"@, "all"@],
        Verb::Logs => seq![],
    }
}

/// Whether the sub-action takes a target-service token immediately after its
/// name. True only for the verb that executes inside a running container.
pub open spec fn spec_needs_target(v: Verb) -> bool {
    v is Shell
}

/// The full argument list of a translated verb: the fixed defaults, then the
/// user-supplied extras, in order.
pub open spec fn spec_full_args(v: Verb, extra: Seq<Seq<char>>) -> Seq<Seq<char>> {
    spec_default_args(v) + extra
}

/// The result of translating a verb: the sub-action to hand to the
/// orchestration tool, the shaped argument list, and whether a target-service
/// token must be inserted after the sub-action.
pub struct ActionSpec {
    pub sub_action: String,
    pub args: Vec<String>,
    pub needs_target: bool,
}

/// Translate a user-facing verb and its trailing user-supplied arguments into
/// the orchestration tool's sub-action and full argument list.
pub fn translate(verb: Verb, extra: &Vec<String>) -> (r: ActionSpec)
    ensures
        r.sub_action@ == spec_sub_action(verb),
        arg_views(r.args@) == spec_full_args(verb, arg_views(extra@)),
        r.needs_target == spec_needs_target(verb),
{
    let sub_action: String;
    let mut args: Vec<String> = Vec::new();
    let needs_target: bool;
    match verb {
        Verb::Build => {
            sub_action = String::from_str("build");
            needs_target = false;
        }
        Verb::Start => {
            sub_action = String::from_str("up");
            args.push(String::from_str("-d"));
            needs_target = false;
        }
        Verb::Shell => {
            sub_action = String::from_str("exec");
            args.push(String::from_str("/bin/bash"));
            needs_target = true;
        }
        Verb::Stop => {
            sub_action = String::from_str("down");
            needs_target = false;
        }
        Verb::Clean => {
            sub_action = String::from_str("down");
            args.push(String::from_str("-v"));
            args.push(String::from_str("--rmi"));
            args.push(String::from_str("all"));
            needs_target = false;
        }
        Verb::Logs => {
            sub_action = String::from_str("logs");
            needs_target = false;
        }
    }
    assert(arg_views(args@) =~= spec_default_args(verb));
    crate::push_args(&mut args, extra);
    ActionSpec { sub_action, args, needs_target }
}

/// Law: translating the destructive cleanup verb always yields the `down`
/// sub-action with the volume flag, the image-removal flag and its argument
/// first and in that order, whatever the user extras, which come after.
pub proof fn lemma_clean_removal_flags(extra: Seq<Seq<char>>)
    ensures
        spec_sub_action(Verb::Clean) == "down"@,
        spec_full_args(Verb::Clean, extra).len() == 3 + extra.len(),
        spec_full_args(Verb::Clean, extra)[0] == "-v"@,
        spec_full_args(Verb::Clean, extra)[1] == "--rmi"@,
        spec_full_args(Verb::Clean, extra)[2] == "all"@,
        forall|i: int|
            0 <= i < extra.len() ==> spec_full_args(Verb::Clean, extra)[3 + i] == extra[i],
{
}

/// Law: translating the start verb always yields the `up` sub-action with the
/// detached flag first, preceding every user-supplied extra.
pub proof fn lemma_start_detached_first(extra: Seq<Seq<char>>)
    ensures
        spec_sub_action(Verb::Start) == "up"@,
        spec_full_args(Verb::Start, extra).len() == 1 + extra.len(),
        spec_full_args(Verb::Start, extra)[0] == "-d"@,
        forall|i: int|
            0 <= i < extra.len() ==> spec_full_args(Verb::Start, extra)[1 + i] == extra[i],
{
}

} // verus!
