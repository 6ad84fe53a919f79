//! The service's own pages.

use vstd::prelude::*;

verus! {

/// What the service says of the build it runs.
#[derive(Debug)]
pub struct ServerInfo {
    pub version: String,
    pub commit: String,
    pub data: String,
    pub os: String,
}

/// The greeting at the root of the service.
pub fn index() -> (greeting: &'static str)
    ensures
        greeting@ == "I am WARK."@,
{
    "I am WARK."
}

/// What the service says of its build: the version, the commit, the time of the
/// commit, and the target that it was built for.
pub fn info(version: String, commit: String, timestamp: String, target: String) -> (info:
    ServerInfo)
    ensures
        info.version == version,
        info.commit == commit,
        info.data == timestamp,
        info.os == target,
{
    ServerInfo { version, commit, data: timestamp, os: target }
}

} // verus!
