//! The service locator: the path of a service's orchestration file under the
//! project root, and the early failure when that file does not exist.

use vstd::prelude::*;

use crate::errors::DocError;

verus! {

/// The fixed name of the per-service orchestration file.
pub open spec fn spec_compose_file() -> Seq<char> {
    "docker-compose.yml"@
}

/// The path of a service's orchestration file: the fixed filename in the
/// service's subdirectory of the project root.
pub open spec fn spec_compose_path(root: Seq<char>, service: Seq<char>) -> Seq<char> {
    root + "/"@ + service + "/"@ + spec_compose_file()
}

/// Build the path of the orchestration file for `service` under `root`.
pub fn compose_path(root: &str, service: &str) -> (r: String)
    ensures
        r@ == spec_compose_path(root@, service@),
{
    let mut p = String::from_str(root);
    p.append("/");
    p.append(service);
    p.append("/");
    p.append("docker-compose.yml");
    p
}

/// Locate the orchestration file of `service` under `root`. The caller probes
/// the filesystem and reports whether the file exists as `file_present`; a
/// missing file is a fatal error naming the service, never retried.
pub fn locate(root: &str, service: &str, file_present: bool) -> (r: Result<
    String,
    DocError,
>)
    ensures
        file_present ==> (r matches Ok(p) && p@ == spec_compose_path(root@, service@)),
        !file_present ==> (r matches Err(e) && e matches DocError::ServiceNotFound {
            service: s,
        } && s@ == service@),
{
    if file_present {
        Ok(compose_path(root, service))
    } else {
        Err(DocError::ServiceNotFound { service: service.to_owned() })
    }
}

/// Law: the located path always ends in the fixed orchestration filename, and
/// that filename sits in the service's subdirectory of the root.
pub proof fn lemma_compose_path_shape(root: Seq<char>, service: Seq<char>)
    ensures
        spec_compose_file().is_suffix_of(spec_compose_path(root, service)),
        spec_compose_path(root, service) == (root + "/"@ + service + "/"@) + spec_compose_file(),
        (root + "/"@ + service + "/"@).is_prefix_of(spec_compose_path(root, service)),
{
    let dir = root + "/"@ + service + "/"@;
    let whole = spec_compose_path(root, service);
    assert(whole =~= dir + spec_compose_file());
    crate::errors::lemma_suffix_of_concat(dir, spec_compose_file());
    assert(dir.is_prefix_of(whole));
}

} // verus!
