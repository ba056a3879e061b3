//! The platform families discovery distinguishes.

use vstd::prelude::*;

verus! {

/// The platform family the discovery strategy is selected for.
///
/// On `Posix` hosts only the locate command is consulted; on `Windows`
/// hosts a miss there falls through to the registry locations.
#[derive(Clone, Copy, Debug, PartialEq, Eq, Structural)]
pub enum Platform {
    Posix,
    Windows,
}

/// The name of the locate command for a platform: `which` on POSIX-like
/// hosts, `where` on Windows-like hosts.
pub fn locate_command(platform: Platform) -> (r: &'static str)
    ensures
        platform is Posix ==> r@ == "which"@,
        platform is Windows ==> r@ == "where"@,
{
    match platform {
        Platform::Posix => "which",
        Platform::Windows => "where",
    }
}

/// The name the locate command is asked to resolve.
pub fn tool_name() -> (r: &'static str)
    ensures
        r@ == "git"@,
{
    "git"
}

/// The argument a candidate binary is launched with during validation.
pub fn version_flag() -> (r: &'static str)
    ensures
        r@ == "--version"@,
{
    "--version"
}

} // verus!
