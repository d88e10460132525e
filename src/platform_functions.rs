//! Host operations offered to operator scripts, on hosts where they are not available.

use vstd::prelude::*;
use crate::text::join3;

verus! {

/// Host operating systems without a native implementation of the script operations.
#[derive(Clone, Copy, Debug, PartialEq, Eq, Structural)]
pub enum HostPlatform {
    Linux,
    MacOs,
    Other,
}

/// Why `operation` cannot be done for `target` on `platform`.
pub open spec fn unsupported_text(operation: Seq<char>, platform: HostPlatform, kind: Seq<char>, target: Seq<char>) -> Seq<char> {
    match platform {
        HostPlatform::Linux => operation + " not yet implemented for Linux for "@ + kind + ": "@ + target,
        HostPlatform::MacOs => operation + " not yet implemented for macOS for "@ + kind + ": "@ + target,
        HostPlatform::Other => operation + " is not supported on this OS for "@ + kind + ": "@ + target,
    }
}

/// See `unsupported_text`.
pub fn unsupported_message(operation: &str, platform: HostPlatform, kind: &str, target: &str) -> (r: String)
    ensures
        r@ == unsupported_text(operation@, platform, kind@, target@),
{
    let middle = match platform {
        HostPlatform::Linux => " not yet implemented for Linux for ",
        HostPlatform::MacOs => " not yet implemented for macOS for ",
        HostPlatform::Other => " is not supported on this OS for ",
    };
    let head = join3(operation, middle, kind);
    join3(head.as_str(), ": ", target)
}

/// Stops a process by its name. No platform here has an implementation, so
/// the answer is always an error naming the process.
pub fn stop_process(platform: HostPlatform, process_name: String) -> (r: Result<(), String>)
    ensures
        r matches Err(m) && m@ == unsupported_text("stop_process"@, platform, "process"@, process_name@),
{
    Err(unsupported_message("stop_process", platform, "process", process_name.as_str()))
}

} // verus!
