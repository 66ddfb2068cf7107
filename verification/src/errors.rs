//! The error taxonomy of the dispatch core, its process exit codes, and the
//! user-facing error lines.

use vstd::prelude::*;

verus! {

/// A fatal condition of the dispatch core itself. An external process that
/// starts but exits non-zero is not one of these: its status is propagated
/// verbatim as the command's own exit status.
#[derive(Debug)]
pub enum DocError {
    /// No orchestration file exists for the named service.
    ServiceNotFound { service: String },
    /// An external executable could not be started at all.
    LaunchFailure,
    /// A restricted diagnostic command was asked of a service outside its
    /// fixed allow-list.
    UnsupportedService { service: String },
}

/// Every internal error terminates the whole command with exit status 1.
pub open spec fn spec_error_exit_code(e: DocError) -> int {
    1
}

/// The process exit status for an internal error.
pub fn error_exit_code(e: &DocError) -> (r: i32)
    ensures
        r as int == spec_error_exit_code(*e),
{
    1
}

/// The single user-facing error line for an internal error. Errors about a
/// particular service name that service at the end of the line.
pub fn error_message(e: &DocError) -> (r: String)
    ensures
        (e matches DocError::ServiceNotFound { service } ==> r@
            == "Error: docker-compose.yml not found for container: "@ + service@),
        (e matches DocError::LaunchFailure ==> r@
            == "Error: failed to start the external process"@),
        (e matches DocError::UnsupportedService { service } ==> r@
            == "Error: command not supported for container: "@ + service@),
        (e matches DocError::ServiceNotFound { service } ==> service@.is_suffix_of(r@)),
        (e matches DocError::UnsupportedService { service } ==> service@.is_suffix_of(r@)),
{
    match e {
        DocError::ServiceNotFound { service } => {
            let mut m = String::from_str("Error: docker-compose.yml not found for container: ");
            m.append(service.as_str());
            proof {
                lemma_suffix_of_concat("Error: docker-compose.yml not found for container: "@, service@);
            }
            m
        },
        DocError::LaunchFailure => String::from_str("Error: failed to start the external process"),
        DocError::UnsupportedService { service } => {
            let mut m = String::from_str("Error: command not supported for container: ");
            m.append(service.as_str());
            proof {
                lemma_suffix_of_concat("Error: command not supported for container: "@, service@);
            }
            m
        },
    }
}

/// The second half of a concatenation is a suffix of the whole.
pub proof fn lemma_suffix_of_concat(a: Seq<char>, b: Seq<char>)
    ensures
        b.is_suffix_of(a + b),
{
    assert(b =~= (a + b).subrange(a.len() as int, (a + b).len() as int));
}

} // verus!
