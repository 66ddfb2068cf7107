//! The `list` verb: which entries of the project root are services, that is
//! subdirectories holding an orchestration file; and the fixed allow-list of
//! services the read-only diagnostic verbs accept.

use vstd::prelude::*;

use crate::arg_views;

verus! {

/// What the listing needs to know of one directory entry under the project
/// root, as reported by the caller's directory walk.
pub struct DirEntryInfo {
    pub name: String,
    pub is_dir: bool,
    pub has_orchestration_file: bool,
}

/// An entry is listed when it is a directory holding an orchestration file.
pub open spec fn spec_listable(e: DirEntryInfo) -> bool {
    e.is_dir && e.has_orchestration_file
}

/// The names of the listable entries, in the order given.
pub open spec fn spec_listed(entries: Seq<DirEntryInfo>) -> Seq<Seq<char>>
    decreases entries.len(),
{
    if entries.len() == 0 {
        seq![]
    } else {
        let rest = spec_listed(entries.drop_last());
        if spec_listable(entries.last()) {
            rest.push(entries.last().name@)
        } else {
            rest
        }
    }
}

/// The available services among the root's directory entries: the names of
/// the subdirectories that hold an orchestration file, in the order reported.
pub fn list_services(entries: &Vec<DirEntryInfo>) -> (r: Vec<String>)
    ensures
        arg_views(r@) == spec_listed(entries@),
{
    let mut names: Vec<String> = Vec::new();
    let mut i: usize = 0;
    while i < entries.len()
        invariant
            i <= entries.len(),
            arg_views(names@) == spec_listed(entries@.subrange(0, i as int)),
        decreases entries.len() - i,
    {
        let ghost before = names@;
        let e = &entries[i];
        if e.is_dir && e.has_orchestration_file {
            names.push(e.name.clone());
        }
        proof {
            let taken = entries@.subrange(0, i as int + 1);
            assert(taken.drop_last() =~= entries@.subrange(0, i as int));
            assert(taken.last() == entries@[i as int]);
            if spec_listable(entries@[i as int]) {
                crate::lemma_arg_views_push(before, entries@[i as int].name);
            }
        }
        i += 1;
    }
    assert(entries@.subrange(0, entries.len() as int) =~= entries@);
    names
}

/// The fixed allow-list of services the read-only diagnostic verbs accept.
pub open spec fn spec_diagnostic_allowed(service: Seq<char>) -> bool {
    service == "torrent"@
}

/// Whether a diagnostic verb may target `service`. Any other service is an
/// unsupported target and the whole command fails.
pub fn diagnostic_allowed(service: &str) -> (r: bool)
    ensures
        r == spec_diagnostic_allowed(service@),
{
    let s = service.to_owned();
    let allowed = String::from_str("torrent");
    s == allowed
}

} // verus!
