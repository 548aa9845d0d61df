//! The get-hostname operation.

use vstd::prelude::*;

use crate::error::AgentError;

verus! {

/// The machine's configured hostname, as returned to the host.
#[derive(Clone, Debug)]
pub struct GuestHostName {
    pub host_name: String,
}

/// Relies on nix::unistd::gethostname: the hostname the OS reports, when it
/// reports one that is valid UTF-8; `None` on lookup or encoding failure.
/// The result depends on the machine's state, so nothing more is assumed of
/// it.
#[verifier::external_body]
fn os_hostname() -> (r: Option<String>) {
    match nix::unistd::gethostname() {
        Ok(h) => h.into_string().ok(),
        Err(_) => None,
    }
}

/// Wrap an OS hostname lookup result: a lookup or encoding failure, and an
/// empty name, are failures; a non-empty name is returned exactly as the OS
/// supplied it, never truncated.
pub fn make_host_name(raw: Option<String>) -> (r: Result<GuestHostName, AgentError>)
    ensures
        match raw {
            Some(s) => if s@.len() == 0 {
                r matches Err(e) && e == AgentError::EmptyHostname
            } else {
                r matches Ok(h) && h.host_name@ == s@
            },
            None => r matches Err(e) && e == AgentError::HostnameUnavailable,
        },
{
    match raw {
        Some(s) => {
            if s.as_str().is_empty() {
                Err(AgentError::EmptyHostname)
            } else {
                Ok(GuestHostName { host_name: s })
            }
        },
        None => Err(AgentError::HostnameUnavailable),
    }
}

/// The get-hostname operation: whenever it succeeds, the result is the
/// non-empty name the OS supplied.
pub fn get_host_name() -> (r: Result<GuestHostName, AgentError>)
    ensures
        r matches Ok(h) ==> h.host_name@.len() > 0,
{
    make_host_name(os_hostname())
}

} // verus!
