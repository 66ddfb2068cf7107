//! Verified core of a command-line front end that maps short user verbs onto
//! invocations of an external container-orchestration tool.
//!
//! The library covers the logic of the front end: resolving the project root,
//! locating a service's orchestration file, translating verbs into the tool's
//! sub-actions and argument lists, shaping whole process invocations, chaining
//! the composite `run` operation with mandatory cleanup, and the ordered
//! fallback across shell providers for launching a setup script. The
//! surrounding binary performs the actual filesystem probes and process
//! spawning and feeds their plain results (file present or not, exit statuses)
//! into these verified functions.

pub mod actions;
pub mod chain;
pub mod dispatch;
pub mod invocation;
pub mod launcher;
pub mod listing;
pub mod errors;
pub mod paths;
pub mod resolve;

use vstd::prelude::*;

verus! {

/// A sequence of strings seen at the specification level: each element's
/// view, in order.
pub open spec fn arg_views(args: Seq<String>) -> Seq<Seq<char>> {
    args.map_values(|s: String| s@)
}

/// The view of an optional string.
pub open spec fn opt_view(o: Option<String>) -> Option<Seq<char>> {
    match o {
        Some(s) => Some(s@),
        None => None,
    }
}

/// Appending one string to an argument vector appends its view to the views.
pub proof fn lemma_arg_views_push(args: Seq<String>, s: String)
    ensures
        arg_views(args.push(s)) == arg_views(args).push(s@),
{
    assert(arg_views(args.push(s)) =~= arg_views(args).push(s@));
}

/// Append every argument of `src` to `args`, in order.
pub fn push_args(args: &mut Vec<String>, src: &Vec<String>)
    ensures
        arg_views(final(args)@) == arg_views(old(args)@) + arg_views(src@),
{
    let ghost base = args@;
    assert(arg_views(base) + arg_views(src@.subrange(0, 0)) =~= arg_views(base));
    let mut i: usize = 0;
    while i < src.len()
        invariant
            i <= src.len(),
            arg_views(args@) == arg_views(base) + arg_views(src@.subrange(0, i as int)),
        decreases src.len() - i,
    {
        let ghost taken = src@.subrange(0, i as int);
        let ghost before = args@;
        args.push(src[i].clone());
        proof {
            lemma_arg_views_push(before, src@[i as int]);
            lemma_arg_views_push(taken, src@[i as int]);
            assert(src@.subrange(0, i as int + 1) =~= taken.push(src@[i as int]));
            assert(arg_views(base) + arg_views(taken).push(src@[i as int]@) =~= (arg_views(base)
                + arg_views(taken)).push(src@[i as int]@));
        }
        i += 1;
    }
    assert(src@.subrange(0, src.len() as int) =~= src@);
}

} // verus!
