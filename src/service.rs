//! The agent as a native OS service: how it is started and how its state reads.

use vstd::prelude::*;
use crate::text::join3;

verus! {

/// The state of the installed service, as the service manager reports it.
#[derive(Clone, Debug, PartialEq, Eq)]
pub enum ServiceState {
    NotInstalled,
    Running,
    /// Stopped, with the manager's reason when it gives one.
    Stopped(Option<String>),
}

/// Human-readable service state.
pub open spec fn status_text(status: ServiceState) -> Seq<char> {
    match status {
        ServiceState::NotInstalled => "not installed"@,
        ServiceState::Running => "running"@,
        ServiceState::Stopped(Some(reason)) => "stopped ("@ + reason@ + ")"@,
        ServiceState::Stopped(None) => "stopped"@,
    }
}

/// See `status_text`.
pub fn format_service_status(status: &ServiceState) -> (r: String)
    ensures
        r@ == status_text(*status),
{
    match status {
        ServiceState::NotInstalled => String::from_str("not installed"),
        ServiceState::Running => String::from_str("running"),
        ServiceState::Stopped(Some(reason)) => join3("stopped (", reason.as_str(), ")"),
        ServiceState::Stopped(None) => String::from_str("stopped"),
    }
}

/// The arguments the service manager starts the agent with: run the server
/// under the given service label.
pub fn service_arguments(label: &str) -> (r: Vec<String>)
    ensures
        r@.len() == 4,
        r@[0]@ == "server"@,
        r@[1]@ == "run"@,
        r@[2]@ == "--service-label"@,
        r@[3]@ == label@,
{
    let mut args: Vec<String> = Vec::new();
    args.push(String::from_str("server"));
    args.push(String::from_str("run"));
    args.push(String::from_str("--service-label"));
    args.push(String::from_str(label));
    args
}

} // verus!
