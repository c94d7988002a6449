//! Package-management requests and their validation. The shell-outs that
//! install or remove software run outside; the service-name check that
//! guards them is verified here.

use vstd::prelude::*;

verus! {

/// A request to install one software package.
pub struct InstallServiceRequest {
    pub service: String,
}

/// A request to uninstall one software package.
pub struct UninstallServiceRequest {
    pub service: String,
}

/// What an install or uninstall answered.
pub struct ServiceResponse {
    pub status: String,
    pub service: String,
    pub command: String,
}

/// The service subcommands of the command line.
pub enum ServiceAction {
    Install,
    Uninstall,
    Start,
    Stop,
    Status,
}

/// Whether a character may appear in a package name handed to a shell:
/// ASCII letters, digits, or a dash.
pub open spec fn spec_name_char(c: char) -> bool {
    ||| 'a' <= c <= 'z'
    ||| 'A' <= c <= 'Z'
    ||| '0' <= c <= '9'
    ||| c == '-'
}

/// Validate a package name before any command is built from it: every
/// character must be a letter, a digit or a dash.
pub fn valid_service_name(name: &str) -> (r: bool)
    ensures
        r <==> forall|i: int| 0 <= i < name@.len() ==> spec_name_char(#[trigger] name@[i]),
{
    let n = name.unicode_len();
    for i in 0..n
        invariant
            n == name@.len(),
            forall|j: int| 0 <= j < i ==> spec_name_char(#[trigger] name@[j]),
    {
        let c = name.get_char(i);
        let ok = ('a' <= c && c <= 'z') || ('A' <= c && c <= 'Z') || ('0' <= c && c <= '9') || c
            == '-';
        if !ok {
            return false;
        }
    }
    true
}

} // verus!
