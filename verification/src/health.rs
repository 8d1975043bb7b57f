//! The `shell_health` payload.

use vstd::prelude::*;

verus! {

/// The `shell_health` command's response payload.
#[derive(Debug, Clone, PartialEq, Eq)]
pub struct ShellHealth {
    /// This shell crate's name, always `"omnifrons-shell"`.
    pub shell: String,
    /// This shell crate's version.
    pub version: String,
    /// Process-supervision containment status, always `"unproven"` until
    /// containment is verified on every platform.
    pub containment: String,
}

/// Build the current [`ShellHealth`] snapshot.
pub fn health() -> (status: ShellHealth)
    ensures
        status.shell@ == "omnifrons-shell"@,
        status.version@ == "0.1.0"@,
        status.containment@ == "unproven"@,
{
    ShellHealth {
        shell: "omnifrons-shell".to_owned(),
        version: "0.1.0".to_owned(),
        containment: "unproven".to_owned(),
    }
}

} // verus!
