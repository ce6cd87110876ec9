//! Addresses of the network services that the front end talks to.
//!
//! A page served from the developer's own machine uses services on that
//! machine; every other page uses the public ones.

use vstd::prelude::*;
use crate::text::same_text;

verus! {

/// Host name under which a page counts as served locally.
pub open spec fn local_host() -> Seq<char> {
    "localhost"@
}

/// Address of the compiler service that runs on a virtual machine.
pub open spec fn compiler_vm_address(local: bool) -> Seq<char> {
    if local { "http://localhost:8081"@ } else { "https://compiler-vm.oort.rs"@ }
}

/// Address of the compiler service.
pub open spec fn compiler_address(local: bool) -> Seq<char> {
    if local { "http://localhost:8081"@ } else { "https://compiler.oort.rs"@ }
}

/// Address of the telemetry service.
pub open spec fn telemetry_address(local: bool) -> Seq<char> {
    if local { "http://localhost:8082"@ } else { "https://telemetry.oort.rs"@ }
}

/// Address of the leaderboard service.
pub open spec fn leaderboard_address(local: bool) -> Seq<char> {
    if local { "http://localhost:8083"@ } else { "https://leaderboard.oort.rs"@ }
}

/// Address to which a leaderboard submission is posted.
pub open spec fn leaderboard_submission_address(local: bool) -> Seq<char> {
    leaderboard_address(local) + "/leaderboard"@
}

/// Whether a page with this host name is served from the local machine.
pub fn is_local(hostname: &str) -> (local: bool)
    ensures
        local == (hostname@ == local_host()),
{
    same_text(hostname, "localhost")
}

/// Address of the compiler service that runs on a virtual machine, for a
/// page that is or is not served locally.
pub fn compiler_vm_url(local: bool) -> (url: String)
    ensures
        url@ == compiler_vm_address(local),
{
    if local {
        "http://localhost:8081".to_owned()
    } else {
        "https://compiler-vm.oort.rs".to_owned()
    }
}

/// Address of the compiler service.
pub fn compiler_url(local: bool) -> (url: String)
    ensures
        url@ == compiler_address(local),
{
    if local {
        "http://localhost:8081".to_owned()
    } else {
        "https://compiler.oort.rs".to_owned()
    }
}

/// Address of the telemetry service.
pub fn telemetry_url(local: bool) -> (url: String)
    ensures
        url@ == telemetry_address(local),
{
    if local {
        "http://localhost:8082".to_owned()
    } else {
        "https://telemetry.oort.rs".to_owned()
    }
}

/// Address of the leaderboard service.
pub fn leaderboard_url(local: bool) -> (url: String)
    ensures
        url@ == leaderboard_address(local),
{
    if local {
        "http://localhost:8083".to_owned()
    } else {
        "https://leaderboard.oort.rs".to_owned()
    }
}

/// The address that a leaderboard submission is posted to: the leaderboard
/// service's address followed by its submission path.
pub fn leaderboard_submission_url(local: bool) -> (url: String)
    ensures
        url@ == leaderboard_submission_address(local),
{
    let base: String = leaderboard_url(local);
    base.concat("/leaderboard")
}

} // verus!
