//! The dispatch layer: one verb aimed at one service becomes one shaped
//! process invocation, and the composite `run` verb becomes the three
//! invocations its chain performs. Dispatch fails early, before any process
//! runs, when the service has no orchestration file.

use vstd::prelude::*;

use crate::actions::Verb;
use crate::actions::spec_full_args;
use crate::actions::spec_needs_target;
use crate::actions::spec_sub_action;
use crate::actions::translate;
use crate::arg_views;
use crate::errors::DocError;
use crate::invocation::Invocation;
use crate::invocation::build_invocation;
use crate::opt_view;
use crate::invocation::spec_tool_argv;
use crate::invocation::spec_tool_name;
use crate::listing::spec_diagnostic_allowed;
use crate::paths::locate;
use crate::paths::spec_compose_path;

verus! {

/// The token naming the service inside the orchestration tool's own world:
/// the service's directory name unless overridden, for setups where the
/// runtime service name differs from the directory name.
pub open spec fn spec_target_token(service: Seq<char>, target_override: Option<Seq<char>>) -> Seq<
    char,
> {
    match target_override {
        Some(t) => t,
        None => service,
    }
}

/// The target token to use for `service` under an optional override.
pub fn target_token(service: &str, target_override: &Option<String>) -> (r: String)
    ensures
        r@ == spec_target_token(service@, opt_view(*target_override)),
{
    match target_override {
        Some(t) => t.clone(),
        None => service.to_owned(),
    }
}

/// Plan one action verb against one service: locate the orchestration file,
/// translate the verb, and shape the whole invocation. Fails with the
/// service-naming error, and no invocation, when the orchestration file is
/// absent (`file_present` reports the caller's filesystem probe).
pub fn plan_action(
    root: &str,
    service: &str,
    verb: Verb,
    extra: &Vec<String>,
    target_override: &Option<String>,
    file_present: bool,
) -> (r: Result<Invocation, DocError>)
    ensures
        !file_present ==> (r matches Err(e) && e matches DocError::ServiceNotFound {
            service: s,
        } && s@ == service@),
        file_present ==> (r matches Ok(inv) && inv.program@ == spec_tool_name() && arg_views(
            inv.args@,
        ) == spec_tool_argv(
            spec_compose_path(root@, service@),
            spec_sub_action(verb),
            if spec_needs_target(verb) {
                Some(spec_target_token(service@, opt_view(*target_override)))
            } else {
                None
            },
            spec_full_args(verb, arg_views(extra@)),
        ) && inv.workdir is None),
{
    let path = match locate(root, service, file_present) {
        Ok(p) => p,
        Err(e) => {
            return Err(e);
        },
    };
    let spec = translate(verb, extra);
    let target: Option<String> = if spec.needs_target {
        Some(target_token(service, target_override))
    } else {
        None
    };
    Ok(build_invocation(path.as_str(), spec.sub_action.as_str(), &target, &spec.args))
}

/// The three invocations of one composite `run` operation, in chain order.
pub struct RunPlan {
    pub start: Invocation,
    pub exec_step: Invocation,
    pub stop: Invocation,
}

/// Plan the composite `run` operation: start the service detached, execute
/// the supplied command inside it, stop it. Fails with the service-naming
/// error, and no invocations, when the orchestration file is absent.
pub fn plan_run(
    root: &str,
    service: &str,
    command: &Vec<String>,
    target_override: &Option<String>,
    file_present: bool,
) -> (r: Result<RunPlan, DocError>)
    ensures
        !file_present ==> (r matches Err(e) && e matches DocError::ServiceNotFound {
            service: s,
        } && s@ == service@),
        file_present ==> (r matches Ok(plan) && {
            let path = spec_compose_path(root@, service@);
            let target = spec_target_token(service@, opt_view(*target_override));
            &&& plan.start.program@ == spec_tool_name()
            &&& plan.exec_step.program@ == spec_tool_name()
            &&& plan.stop.program@ == spec_tool_name()
            &&& arg_views(plan.start.args@) == spec_tool_argv(
                path,
                spec_sub_action(Verb::Start),
                None,
                spec_full_args(Verb::Start, Seq::empty()),
            )
            &&& arg_views(plan.exec_step.args@) == spec_tool_argv(
                path,
                spec_sub_action(Verb::Shell),
                Some(target),
                arg_views(command@),
            )
            &&& arg_views(plan.stop.args@) == spec_tool_argv(
                path,
                spec_sub_action(Verb::Stop),
                None,
                spec_full_args(Verb::Stop, Seq::empty()),
            )
            &&& plan.start.workdir is None
            &&& plan.exec_step.workdir is None
            &&& plan.stop.workdir is None
        }),
{
    let path = match locate(root, service, file_present) {
        Ok(p) => p,
        Err(e) => {
            return Err(e);
        },
    };
    let no_extra: Vec<String> = Vec::new();
    assert(arg_views(no_extra@) =~= Seq::<Seq<char>>::empty());

    let start_spec = translate(Verb::Start, &no_extra);
    let start = build_invocation(path.as_str(), start_spec.sub_action.as_str(), &None, &start_spec.args);

    let target = Some(target_token(service, target_override));
    let exec_sub = String::from_str("exec");
    let exec_step = build_invocation(path.as_str(), exec_sub.as_str(), &target, command);

    let stop_spec = translate(Verb::Stop, &no_extra);
    let stop = build_invocation(path.as_str(), stop_spec.sub_action.as_str(), &None, &stop_spec.args);

    Ok(RunPlan { start, exec_step, stop })
}

/// Gate a read-only diagnostic verb: only a service on the fixed allow-list
/// may be targeted; any other service is an unsupported target and the whole
/// command fails.
pub fn check_diagnostic_target(service: &str) -> (r: Result<(), DocError>)
    ensures
        spec_diagnostic_allowed(service@) ==> r is Ok,
        !spec_diagnostic_allowed(service@) ==> (r matches Err(e)
            && e matches DocError::UnsupportedService { service: s } && s@ == service@),
{
    if crate::listing::diagnostic_allowed(service) {
        Ok(())
    } else {
        Err(DocError::UnsupportedService { service: service.to_owned() })
    }
}

} // verus!
